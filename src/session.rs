use vstd::prelude::*;

use crate::change_set::{new_paths, ChangeSet};
use crate::mirror::{
    sync_next, Action, Event, Failure, Operation, StoreError, SyncMode, SyncPhase, CODE_INVALID_SPEC, CODE_NOT_FOUND,
};
use crate::revision::Revision;

verus! {

/// Why a run failed.
#[derive(Debug)]
pub enum SyncError {
    /// An engine operation failed with this error.
    Store { op: Operation, error: StoreError },
    /// The engine's answer did not fit the operation that was asked for.
    UnexpectedEvent { op: Operation },
    /// The checkpoint token names nothing in the mirror's history.
    RevisionNotFound(String),
}

/// What a successful run leaves: how the mirror was synchronised, its head
/// (the checkpoint for the next run), and what changed since the checkpoint.
#[derive(Debug)]
pub struct RunReport {
    pub mode: SyncMode,
    pub head: Revision,
    pub changes: ChangeSet,
}

/// Where a run stands.
#[derive(Debug)]
pub enum RunPhase {
    Syncing(SyncPhase),
    Resolving { mode: SyncMode, head: Revision },
    Diffing { mode: SyncMode, head: Revision },
    Done(RunReport),
    Failed(SyncError),
}

/// One run: bring the mirror in step with the remote, then find what changed
/// since the checkpoint, if there is one.
#[derive(Debug)]
pub struct Session {
    pub checkpoint: Option<String>,
    pub phase: RunPhase,
}

/// The run error for a failed synchronisation step.
pub open spec fn failure_error(f: Failure) -> SyncError {
    match f.cause {
        Some(e) => SyncError::Store { op: f.op, error: e },
        None => SyncError::UnexpectedEvent { op: f.op },
    }
}

/// What a checkpoint lookup means: the revision found, or that the token
/// names nothing.
pub open spec fn lookup_result(token: String, found: Option<Revision>) -> Result<Revision, SyncError> {
    match found {
        Some(r) => Ok(r),
        None => Err(SyncError::RevisionNotFound(token)),
    }
}

/// A lookup error that means the token names no object in the mirror.
pub open spec fn names_nothing(e: StoreError) -> bool {
    e.code == CODE_NOT_FOUND || e.code == CODE_INVALID_SPEC
}

/// What a failed checkpoint lookup means: the token names nothing, or the
/// engine failed.
pub open spec fn lookup_failure(token: String, e: StoreError) -> SyncError {
    if names_nothing(e) {
        SyncError::RevisionNotFound(token)
    } else {
        SyncError::Store { op: Operation::ResolveCheckpoint, error: e }
    }
}

/// Once the mirror is in step: without a checkpoint the run is over with
/// `Full`; with one, the checkpoint is resolved next.
pub open spec fn after_sync(checkpoint: Option<String>, m: SyncMode, h: Revision, q: RunPhase, a: Action) -> bool {
    match checkpoint {
        None => q == RunPhase::Done(RunReport { mode: m, head: h, changes: ChangeSet::Full }) && a == Action::Finish,
        Some(t) => q == (RunPhase::Resolving { mode: m, head: h }) && a == Action::ResolveCheckpoint(t),
    }
}

/// One step of a run, from phase `p` and the engine's answer `e` to phase
/// `q` and action `a`.
pub open spec fn run_step(checkpoint: Option<String>, p: RunPhase, e: Event, q: RunPhase, a: Action) -> bool {
    match p {
        RunPhase::Syncing(sp) => {
            let (sp2, a2) = sync_next(sp, e);
            match sp2 {
                SyncPhase::Synced(m, h) => after_sync(checkpoint, m, h, q, a),
                SyncPhase::Failed(f) => q == RunPhase::Failed(failure_error(f)) && a == Action::Abort,
                _ => q == RunPhase::Syncing(sp2) && a == a2,
            }
        },
        RunPhase::Resolving { mode, head } => match e {
            Event::Resolved(Some(r)) => q == (RunPhase::Diffing { mode, head }) && a == (Action::DiffTrees { from: r, to: head }),
            Event::Resolved(None) => checkpoint matches Some(t) && q == RunPhase::Failed(SyncError::RevisionNotFound(t))
                && a == Action::Abort,
            Event::Failed(err) => checkpoint matches Some(t) && q == RunPhase::Failed(lookup_failure(t, err))
                && a == Action::Abort,
            _ => q == RunPhase::Failed(SyncError::UnexpectedEvent { op: Operation::ResolveCheckpoint })
                && a == Action::Abort,
        },
        RunPhase::Diffing { mode, head } => match e {
            Event::Diffed(d) => a == Action::Finish && match q {
                RunPhase::Done(rep) => rep.mode == mode && rep.head == head && rep.changes is Incremental
                    && rep.changes.wf() && rep.changes.paths() == new_paths(d@),
                _ => false,
            },
            Event::Failed(err) => q == RunPhase::Failed(SyncError::Store { op: Operation::Diff, error: err })
                && a == Action::Abort,
            _ => q == RunPhase::Failed(SyncError::UnexpectedEvent { op: Operation::Diff }) && a == Action::Abort,
        },
        RunPhase::Done(_) => q == p && a == Action::Finish,
        RunPhase::Failed(_) => q == p && a == Action::Abort,
    }
}

fn failure_to_error(f: Failure) -> (r: SyncError)
    ensures
        r == failure_error(f),
{
    match f.cause {
        Some(e) => SyncError::Store { op: f.op, error: e },
        None => SyncError::UnexpectedEvent { op: f.op },
    }
}

/// Interprets an error from the engine's lookup of a checkpoint token.
pub fn interpret_lookup_error(token: &String, e: StoreError) -> (r: SyncError)
    ensures
        r == lookup_failure(*token, e),
{
    if e.code == CODE_NOT_FOUND || e.code == CODE_INVALID_SPEC {
        SyncError::RevisionNotFound(token.clone())
    } else {
        SyncError::Store { op: Operation::ResolveCheckpoint, error: e }
    }
}

/// Interprets the engine's lookup of a checkpoint token.
pub fn interpret_lookup(token: &String, found: Option<Revision>) -> (r: Result<Revision, SyncError>)
    ensures
        r == lookup_result(*token, found),
{
    match found {
        Some(rev) => Ok(rev),
        None => Err(SyncError::RevisionNotFound(token.clone())),
    }
}

impl Session {
    /// A phase that waits on the checkpoint exists only where there is one,
    /// and a finished run's change set is well formed.
    pub open spec fn wf(&self) -> bool {
        &&& (self.phase is Resolving || self.phase is Diffing) ==> self.checkpoint is Some
        &&& self.phase matches RunPhase::Done(rep) ==> rep.changes.wf()
    }

    /// A new run, and its first action, which is always a clone attempt.
    pub fn start(checkpoint: Option<String>) -> (r: (Session, Action))
        ensures
            r.0.wf(),
            r.0.checkpoint == checkpoint,
            r.0.phase == RunPhase::Syncing(SyncPhase::Cloning),
            r.1 == Action::Clone,
    {
        let (sp, a) = SyncPhase::start();
        (Session { checkpoint, phase: RunPhase::Syncing(sp) }, a)
    }

    fn finish_sync(&mut self, m: SyncMode, h: Revision) -> (a: Action)
        requires
            old(self).phase is Syncing,
        ensures
            final(self).wf(),
            final(self).checkpoint == old(self).checkpoint,
            after_sync(old(self).checkpoint, m, h, final(self).phase, a),
    {
        match &self.checkpoint {
            None => {
                self.phase = RunPhase::Done(RunReport { mode: m, head: h, changes: ChangeSet::Full });
                Action::Finish
            },
            Some(t) => {
                let token = t.clone();
                self.phase = RunPhase::Resolving { mode: m, head: h };
                Action::ResolveCheckpoint(token)
            },
        }
    }

    /// The run's result once it is over: its report or its error; `None`
    /// while it still waits on the engine.
    pub fn into_outcome(self) -> (r: Option<Result<RunReport, SyncError>>)
        ensures
            match self.phase {
                RunPhase::Done(rep) => r == Some(Ok::<RunReport, SyncError>(rep)),
                RunPhase::Failed(err) => r == Some(Err::<RunReport, SyncError>(err)),
                _ => r is None,
            },
    {
        match self.phase {
            RunPhase::Done(rep) => Some(Ok(rep)),
            RunPhase::Failed(err) => Some(Err(err)),
            _ => None,
        }
    }

    /// Whether the run is over, successfully or not.
    pub fn is_finished(&self) -> (r: bool)
        ensures
            r == (self.phase is Done || self.phase is Failed),
    {
        match &self.phase {
            RunPhase::Done(_) | RunPhase::Failed(_) => true,
            _ => false,
        }
    }

    /// Takes the engine's answer to the last action and gives the next action.
    pub fn step(&mut self, e: Event) -> (a: Action)
        requires
            old(self).wf(),
        ensures
            final(self).wf(),
            final(self).checkpoint == old(self).checkpoint,
            run_step(old(self).checkpoint, old(self).phase, e, final(self).phase, a),
    {
        match &self.phase {
            RunPhase::Syncing(sp) => {
                let mut sp2 = *sp;
                let a2 = sp2.step(&e);
                match sp2 {
                    SyncPhase::Synced(m, h) => self.finish_sync(m, h),
                    SyncPhase::Failed(f) => {
                        self.phase = RunPhase::Failed(failure_to_error(f));
                        Action::Abort
                    },
                    _ => {
                        self.phase = RunPhase::Syncing(sp2);
                        a2
                    },
                }
            },
            RunPhase::Resolving { mode, head } => {
                let (m, h) = (*mode, *head);
                match e {
                    Event::Resolved(found) => {
                        let token = match &self.checkpoint {
                            Some(t) => t,
                            None => {
                                return Action::Abort;
                            },
                        };
                        match interpret_lookup(token, found) {
                            Ok(r) => {
                                self.phase = RunPhase::Diffing { mode: m, head: h };
                                Action::DiffTrees { from: r, to: h }
                            },
                            Err(err) => {
                                self.phase = RunPhase::Failed(err);
                                Action::Abort
                            },
                        }
                    },
                    Event::Failed(err) => {
                        let token = match &self.checkpoint {
                            Some(t) => t,
                            None => {
                                return Action::Abort;
                            },
                        };
                        self.phase = RunPhase::Failed(interpret_lookup_error(token, err));
                        Action::Abort
                    },
                    _ => {
                        self.phase = RunPhase::Failed(SyncError::UnexpectedEvent { op: Operation::ResolveCheckpoint });
                        Action::Abort
                    },
                }
            },
            RunPhase::Diffing { mode, head } => {
                let (m, h) = (*mode, *head);
                match e {
                    Event::Diffed(d) => {
                        let changes = ChangeSet::from_deltas(&d);
                        self.phase = RunPhase::Done(RunReport { mode: m, head: h, changes });
                        Action::Finish
                    },
                    Event::Failed(err) => {
                        self.phase = RunPhase::Failed(SyncError::Store { op: Operation::Diff, error: err });
                        Action::Abort
                    },
                    _ => {
                        self.phase = RunPhase::Failed(SyncError::UnexpectedEvent { op: Operation::Diff });
                        Action::Abort
                    },
                }
            },
            RunPhase::Done(_) => Action::Finish,
            RunPhase::Failed(_) => Action::Abort,
        }
    }
}

} // verus!
