use vstd::prelude::*;

use crate::change_set::DeltaEntry;
use crate::revision::Revision;

verus! {

/// Error code the engine reports when a clone finds its destination taken.
pub const CODE_EXISTS: i32 = -4;

/// Error class the engine gives to an invalid argument or destination.
pub const CLASS_INVALID: i32 = 3;

/// Error code the engine reports when a name resolves to no object.
pub const CODE_NOT_FOUND: i32 = -3;

/// Error code the engine reports for a malformed revision expression.
pub const CODE_INVALID_SPEC: i32 = -12;

/// An engine error, as its numeric code and class.
#[derive(Clone, Copy, Debug, PartialEq, Eq)]
pub struct StoreError {
    pub code: i32,
    pub class: i32,
}

/// The engine operations a run performs, used to say which one failed.
#[derive(Clone, Copy, Debug, PartialEq, Eq)]
pub enum Operation {
    Clone,
    Open,
    Fetch,
    Disconnect,
    ResolveFetchHead,
    Reset,
    ResolveCheckpoint,
    Diff,
}

/// How the mirror came to match the remote.
#[derive(Clone, Copy, Debug, PartialEq, Eq)]
pub enum SyncMode {
    /// The path held no repository and a fresh clone was made.
    Cloned,
    /// An existing mirror was fetched and hard reset to the remote head.
    Updated,
}

/// What a clone attempt amounted to.
#[derive(Clone, Copy, Debug, PartialEq, Eq)]
pub enum CloneOutcome {
    Created,
    AlreadyPresent,
    Failed(StoreError),
}

/// Why a step of a run failed: the operation, and the engine's error, or
/// `None` where the answer did not fit the operation that was asked for.
#[derive(Clone, Copy, Debug, PartialEq, Eq)]
pub struct Failure {
    pub op: Operation,
    pub cause: Option<StoreError>,
}

/// What the caller is to do next on the engine.
#[derive(Debug, PartialEq, Eq)]
pub enum Action {
    Clone,
    Open,
    FetchOrigin,
    Disconnect,
    ResolveFetchHead,
    ResetHard(Revision),
    ResolveCheckpoint(String),
    DiffTrees { from: Revision, to: Revision },
    /// The run is over and succeeded.
    Finish,
    /// The run is over and failed.
    Abort,
}

/// The engine's answer to the last action.
#[derive(Debug)]
pub enum Event {
    /// The clone succeeded; the mirror's head is this revision.
    Cloned(Revision),
    Opened,
    Fetched,
    Disconnected,
    /// The fetched head resolves to this commit.
    FetchHead(Revision),
    ResetDone,
    /// The checkpoint names this revision, or nothing in the mirror.
    Resolved(Option<Revision>),
    Diffed(Vec<DeltaEntry>),
    /// The pending operation failed with this error.
    Failed(StoreError),
}

/// Where the synchronisation of the mirror stands.
#[derive(Clone, Copy, Debug, PartialEq, Eq)]
pub enum SyncPhase {
    Cloning,
    Opening,
    Fetching,
    Disconnecting,
    ReadingFetchHead,
    Resetting(Revision),
    Synced(SyncMode, Revision),
    Failed(Failure),
}

/// The error signal that a clone's destination already holds a repository.
pub open spec fn signals_existing(e: StoreError) -> bool {
    e.code == CODE_EXISTS && e.class == CLASS_INVALID
}

/// Telling the "already there" signal apart from every other clone failure.
pub fn classify_clone_error(e: StoreError) -> (r: CloneOutcome)
    ensures
        signals_existing(e) ==> r == CloneOutcome::AlreadyPresent,
        !signals_existing(e) ==> r == CloneOutcome::Failed(e),
{
    if e.code == CODE_EXISTS && e.class == CLASS_INVALID {
        CloneOutcome::AlreadyPresent
    } else {
        CloneOutcome::Failed(e)
    }
}

/// The operation that a phase waits on.
pub open spec fn pending_op(p: SyncPhase) -> Operation {
    match p {
        SyncPhase::Cloning => Operation::Clone,
        SyncPhase::Opening => Operation::Open,
        SyncPhase::Fetching => Operation::Fetch,
        SyncPhase::Disconnecting => Operation::Disconnect,
        SyncPhase::ReadingFetchHead => Operation::ResolveFetchHead,
        _ => Operation::Reset,
    }
}

/// One step of synchronisation: from a phase and the engine's answer to the
/// next phase and the next action.
pub open spec fn sync_next(p: SyncPhase, e: Event) -> (SyncPhase, Action) {
    match (p, e) {
        (SyncPhase::Synced(m, h), _) => (p, Action::Finish),
        (SyncPhase::Failed(f), _) => (p, Action::Abort),
        (SyncPhase::Cloning, Event::Cloned(h)) => (SyncPhase::Synced(SyncMode::Cloned, h), Action::Finish),
        (SyncPhase::Cloning, Event::Failed(err)) => if signals_existing(err) {
            (SyncPhase::Opening, Action::Open)
        } else {
            (SyncPhase::Failed(Failure { op: Operation::Clone, cause: Some(err) }), Action::Abort)
        },
        (SyncPhase::Opening, Event::Opened) => (SyncPhase::Fetching, Action::FetchOrigin),
        (SyncPhase::Fetching, Event::Fetched) => (SyncPhase::Disconnecting, Action::Disconnect),
        (SyncPhase::Disconnecting, Event::Disconnected) => (SyncPhase::ReadingFetchHead, Action::ResolveFetchHead),
        (SyncPhase::ReadingFetchHead, Event::FetchHead(c)) => (SyncPhase::Resetting(c), Action::ResetHard(c)),
        (SyncPhase::Resetting(c), Event::ResetDone) => (SyncPhase::Synced(SyncMode::Updated, c), Action::Finish),
        (_, Event::Failed(err)) => (SyncPhase::Failed(Failure { op: pending_op(p), cause: Some(err) }), Action::Abort),
        (_, _) => (SyncPhase::Failed(Failure { op: pending_op(p), cause: None }), Action::Abort),
    }
}

/// The phase reached from `p` after the answers `events`, in order.
pub open spec fn replay(p: SyncPhase, events: Seq<Event>) -> SyncPhase
    decreases events.len(),
{
    if events.len() == 0 {
        p
    } else {
        replay(sync_next(p, events[0]).0, events.drop_first())
    }
}

/// The actions issued, in order, while replaying `events` from `p`.
pub open spec fn replay_actions(p: SyncPhase, events: Seq<Event>) -> Seq<Action>
    decreases events.len(),
{
    if events.len() == 0 {
        Seq::empty()
    } else {
        seq![sync_next(p, events[0]).1] + replay_actions(sync_next(p, events[0]).0, events.drop_first())
    }
}

/// Past the clone attempt, no answer leads to a clone: no clone is asked
/// for and the mirror is never reported as freshly cloned.
pub proof fn lemma_no_clone_after_attempt(p: SyncPhase, events: Seq<Event>)
    requires
        p != SyncPhase::Cloning,
        !(p matches SyncPhase::Synced(SyncMode::Cloned, _)),
    ensures
        !replay_actions(p, events).contains(Action::Clone),
        !(replay(p, events) matches SyncPhase::Synced(SyncMode::Cloned, _)),
    decreases events.len(),
{
    if events.len() > 0 {
        let (q, a) = sync_next(p, events[0]);
        lemma_no_clone_after_attempt(q, events.drop_first());
        let rest = replay_actions(q, events.drop_first());
        assert(replay_actions(p, events) == seq![a] + rest);
        assert forall|k: int| 0 <= k < replay_actions(p, events).len() implies
            replay_actions(p, events)[k] != Action::Clone by {
            if k > 0 {
                assert(replay_actions(p, events)[k] == rest[k - 1]);
            }
        }
    }
}

/// Synchronising the same path twice: the first time, on a path with no
/// repository, clones and leaves the remote head `h`; the second time the
/// clone reports the repository already there, and, with the remote still
/// at `h`, the run opens, fetches, disconnects, reads the fetched head and
/// hard resets to it, ending at the same head `h`. Whatever the engine
/// answers after an "already there" signal, no clone is asked for again.
pub proof fn lemma_second_sync_updates(h: Revision, already: StoreError, rest: Seq<Event>)
    requires
        signals_existing(already),
    ensures
        replay(SyncPhase::Cloning, seq![Event::Cloned(h)]) == SyncPhase::Synced(SyncMode::Cloned, h),
        replay(
            SyncPhase::Cloning,
            seq![Event::Failed(already), Event::Opened, Event::Fetched, Event::Disconnected, Event::FetchHead(h), Event::ResetDone],
        ) == SyncPhase::Synced(SyncMode::Updated, h),
        replay_actions(
            SyncPhase::Cloning,
            seq![Event::Failed(already), Event::Opened, Event::Fetched, Event::Disconnected, Event::FetchHead(h), Event::ResetDone],
        ) == seq![Action::Open, Action::FetchOrigin, Action::Disconnect, Action::ResolveFetchHead, Action::ResetHard(h), Action::Finish],
        !replay_actions(SyncPhase::Cloning, seq![Event::Failed(already)] + rest).contains(Action::Clone),
        !(replay(SyncPhase::Cloning, seq![Event::Failed(already)] + rest) matches SyncPhase::Synced(SyncMode::Cloned, _)),
{
    reveal_with_fuel(replay, 7);
    reveal_with_fuel(replay_actions, 7);
    let once = seq![Event::Cloned(h)];
    assert(once.drop_first() =~= Seq::<Event>::empty());
    let evs = seq![Event::Failed(already), Event::Opened, Event::Fetched, Event::Disconnected, Event::FetchHead(h), Event::ResetDone];
    assert(evs.drop_first() =~= seq![Event::Opened, Event::Fetched, Event::Disconnected, Event::FetchHead(h), Event::ResetDone]);
    assert(evs.drop_first().drop_first() =~= seq![Event::Fetched, Event::Disconnected, Event::FetchHead(h), Event::ResetDone]);
    assert(evs.drop_first().drop_first().drop_first() =~= seq![Event::Disconnected, Event::FetchHead(h), Event::ResetDone]);
    assert(evs.drop_first().drop_first().drop_first().drop_first() =~= seq![Event::FetchHead(h), Event::ResetDone]);
    assert(evs.drop_first().drop_first().drop_first().drop_first().drop_first() =~= seq![Event::ResetDone]);
    assert(evs.drop_first().drop_first().drop_first().drop_first().drop_first().drop_first() =~= Seq::<Event>::empty());
    assert(replay_actions(SyncPhase::Cloning, evs) =~= seq![Action::Open, Action::FetchOrigin, Action::Disconnect, Action::ResolveFetchHead, Action::ResetHard(h), Action::Finish]);
    let all = seq![Event::Failed(already)] + rest;
    assert(all[0] == Event::Failed(already));
    assert(all.drop_first() =~= rest);
    lemma_no_clone_after_attempt(SyncPhase::Opening, rest);
    let tail = replay_actions(SyncPhase::Opening, rest);
    assert(replay_actions(SyncPhase::Cloning, all) == seq![Action::Open] + tail);
    assert forall|k: int| 0 <= k < replay_actions(SyncPhase::Cloning, all).len() implies
        replay_actions(SyncPhase::Cloning, all)[k] != Action::Clone by {
        if k > 0 {
            assert(replay_actions(SyncPhase::Cloning, all)[k] == tail[k - 1]);
        }
    }
}

impl SyncPhase {
    /// Where every synchronisation starts, and the action it starts with.
    pub fn start() -> (r: (SyncPhase, Action))
        ensures
            r == (SyncPhase::Cloning, Action::Clone),
    {
        (SyncPhase::Cloning, Action::Clone)
    }

    fn pending(&self) -> (r: Operation)
        ensures
            r == pending_op(*self),
    {
        match self {
            SyncPhase::Cloning => Operation::Clone,
            SyncPhase::Opening => Operation::Open,
            SyncPhase::Fetching => Operation::Fetch,
            SyncPhase::Disconnecting => Operation::Disconnect,
            SyncPhase::ReadingFetchHead => Operation::ResolveFetchHead,
            _ => Operation::Reset,
        }
    }

    /// Takes the engine's answer to the last action and gives the next action.
    pub fn step(&mut self, e: &Event) -> (a: Action)
        ensures
            (*final(self), a) == sync_next(*old(self), *e),
    {
        let p = *self;
        match (p, e) {
            (SyncPhase::Synced(_, _), _) => Action::Finish,
            (SyncPhase::Failed(_), _) => Action::Abort,
            (SyncPhase::Cloning, Event::Cloned(h)) => {
                *self = SyncPhase::Synced(SyncMode::Cloned, *h);
                Action::Finish
            },
            (SyncPhase::Cloning, Event::Failed(err)) => match classify_clone_error(*err) {
                CloneOutcome::AlreadyPresent => {
                    *self = SyncPhase::Opening;
                    Action::Open
                },
                _ => {
                    *self = SyncPhase::Failed(Failure { op: Operation::Clone, cause: Some(*err) });
                    Action::Abort
                },
            },
            (SyncPhase::Opening, Event::Opened) => {
                *self = SyncPhase::Fetching;
                Action::FetchOrigin
            },
            (SyncPhase::Fetching, Event::Fetched) => {
                *self = SyncPhase::Disconnecting;
                Action::Disconnect
            },
            (SyncPhase::Disconnecting, Event::Disconnected) => {
                *self = SyncPhase::ReadingFetchHead;
                Action::ResolveFetchHead
            },
            (SyncPhase::ReadingFetchHead, Event::FetchHead(c)) => {
                *self = SyncPhase::Resetting(*c);
                Action::ResetHard(*c)
            },
            (SyncPhase::Resetting(c), Event::ResetDone) => {
                *self = SyncPhase::Synced(SyncMode::Updated, c);
                Action::Finish
            },
            (_, Event::Failed(err)) => {
                *self = SyncPhase::Failed(Failure { op: p.pending(), cause: Some(*err) });
                Action::Abort
            },
            (_, _) => {
                *self = SyncPhase::Failed(Failure { op: p.pending(), cause: None });
                Action::Abort
            },
        }
    }
}

} // verus!
