use mirror_sync::progress::{on_ref_update, on_transfer_progress, ProgressEvent, RefChange, Signal};
use mirror_sync::revision::Revision;

#[test]
fn zero_revision_is_zero() {
    assert!(Revision::zero().is_zero());
    assert!(Revision::from_bytes([0u8; 20]).is_zero());
}

#[test]
fn revision_with_one_set_byte_is_not_zero() {
    let mut id = [0u8; 20];
    id[19] = 1;
    assert!(!Revision::from_bytes(id).is_zero());
    id[19] = 0;
    id[0] = 0xff;
    assert!(!Revision::from_bytes(id).is_zero());
    assert_eq!(Revision::from_bytes(id).as_bytes(), id);
}

#[test]
fn new_ref_is_reported_as_created() {
    let new_id = Revision::from_bytes([7u8; 20]);
    let (ev, sig) = on_ref_update("refs/heads/main".to_string(), Revision::zero(), new_id);
    assert_eq!(sig, Signal::Continue);
    match ev {
        ProgressEvent::RefUpdate { ref_name, change, old_id, new_id: n } => {
            assert_eq!(ref_name, "refs/heads/main");
            assert_eq!(change, RefChange::Created);
            assert!(old_id.is_zero());
            assert_eq!(n, new_id);
        }
        _ => panic!("expected a ref update"),
    }
}

#[test]
fn moved_ref_is_reported_as_updated() {
    let (ev, sig) =
        on_ref_update("refs/heads/main".to_string(), Revision::from_bytes([1u8; 20]), Revision::from_bytes([2u8; 20]));
    assert_eq!(sig, Signal::Continue);
    assert!(matches!(ev, ProgressEvent::RefUpdate { change: RefChange::Updated, .. }));
}

#[test]
fn transfer_progress_continues() {
    let (ev, sig) = on_transfer_progress(3, 10, 4096);
    assert_eq!(sig, Signal::Continue);
    assert!(matches!(
        ev,
        ProgressEvent::Transfer { received_objects: 3, total_objects: 10, received_bytes: 4096 }
    ));
}
