use vstd::prelude::*;

use crate::revision::{zero_id, Revision};

verus! {

/// Whether a transfer goes on; observers only ever say `Continue`.
#[derive(Clone, Copy, Debug, PartialEq, Eq)]
pub enum Signal {
    Continue,
    Abort,
}

/// How a ref moved during a fetch or clone.
#[derive(Clone, Copy, Debug, PartialEq, Eq)]
pub enum RefChange {
    /// The ref did not exist before (its old id is all zeros).
    Created,
    Updated,
}

/// One observation made during a transfer.
#[derive(Debug)]
pub enum ProgressEvent {
    Transfer { received_objects: usize, total_objects: usize, received_bytes: usize },
    RefUpdate { ref_name: String, change: RefChange, old_id: Revision, new_id: Revision },
}

/// Records a transfer-progress callback; the transfer always goes on.
pub fn on_transfer_progress(received_objects: usize, total_objects: usize, received_bytes: usize) -> (r: (
    ProgressEvent,
    Signal,
))
    ensures
        r.0 == (ProgressEvent::Transfer { received_objects, total_objects, received_bytes }),
        r.1 == Signal::Continue,
{
    (ProgressEvent::Transfer { received_objects, total_objects, received_bytes }, Signal::Continue)
}

/// Records a ref-update callback: a zero old id marks a new ref. The
/// transfer always goes on.
pub fn on_ref_update(ref_name: String, old_id: Revision, new_id: Revision) -> (r: (ProgressEvent, Signal))
    ensures
        r.0 == (ProgressEvent::RefUpdate {
            ref_name,
            change: if zero_id(old_id@) {
                RefChange::Created
            } else {
                RefChange::Updated
            },
            old_id,
            new_id,
        }),
        r.1 == Signal::Continue,
{
    let change = if old_id.is_zero() {
        RefChange::Created
    } else {
        RefChange::Updated
    };
    (ProgressEvent::RefUpdate { ref_name, change, old_id, new_id }, Signal::Continue)
}

} // verus!
