//! Deleting a collection, for callers that keep no more than they need.

use vstd::prelude::*;
use crate::codec::{directory_of_collection, DIR_SIZE};
use crate::error::StorageErr;
use crate::session::{Action, Event, SdState};
use crate::storage::{
    acquire_spec, progress_action, progress_step, progress_wf, remove_spec, Progress, SdHandle,
    Storage,
};

verus! {

/// How far a deletion has come.
#[derive(Clone, Copy, Debug, PartialEq, Eq)]
pub enum RemovePhase {
    /// The session is being acquired.
    Acquiring,
    /// The file is being deleted.
    Deleting,
    /// The deletion is over.
    Done(Result<(), StorageErr>),
}

/// A deletion, as its contracts see it.
pub struct RemoveModel {
    /// The session state.
    pub state: SdState,
    /// The acquisition of the session.
    pub progress: Progress,
    /// The collection to delete.
    pub collection: u32,
    /// How far the deletion has come.
    pub phase: RemovePhase,
}

/// A deletion whose session is settled: refused or failed, it is over; ready,
/// it goes on to delete the file.
pub open spec fn remove_settle(m: RemoveModel) -> RemoveModel {
    match m.progress {
        Progress::Ready => RemoveModel { phase: RemovePhase::Deleting, ..m },
        Progress::Failed(e) => RemoveModel { phase: RemovePhase::Done(Err(e)), ..m },
        Progress::Refused => RemoveModel {
            phase: RemovePhase::Done(Err(StorageErr::Uninitialized)),
            ..m
        },
        _ => RemoveModel { phase: RemovePhase::Acquiring, ..m },
    }
}

/// The deletion of `collection` that begins at time `now` on a supervisor in
/// `state`.
pub open spec fn remove_begin(state: SdState, collection: u32, now: i32) -> RemoveModel {
    let (state, progress) = acquire_spec(state, now);
    remove_settle(RemoveModel { state, progress, collection, phase: RemovePhase::Acquiring })
}

/// What a deletion asks of the driver; nothing once it is over.
pub open spec fn remove_action(m: RemoveModel) -> Option<Action> {
    match m.phase {
        RemovePhase::Acquiring => progress_action(m.progress),
        RemovePhase::Deleting => Some(
            Action::Delete {
                dir: directory_of_collection(m.collection as nat) as u32,
                collection: m.collection,
            },
        ),
        RemovePhase::Done(_) => None,
    }
}

/// The deletion after `event`. A failed deletion is reported and leaves the
/// session state as it is. An event that the deletion does not wait for
/// changes nothing.
pub open spec fn remove_step(m: RemoveModel, event: Event) -> RemoveModel {
    match (m.phase, event) {
        (RemovePhase::Acquiring, _) => {
            let (state, progress) = progress_step(m.state, m.progress, event);
            remove_settle(RemoveModel { state, progress, ..m })
        },
        (RemovePhase::Deleting, Event::Deleted(outcome)) => {
            let (state, removed) = remove_spec(m.state, outcome);
            RemoveModel { state, phase: RemovePhase::Done(removed), ..m }
        },
        _ => m,
    }
}

/// The models that a deletion can have.
pub open spec fn remove_wf(m: RemoveModel) -> bool {
    &&& progress_wf(m.progress)
    &&& m.phase is Acquiring ==> progress_action(m.progress) is Some
    &&& m.phase is Deleting ==> m.progress is Ready
}

/// A deletion in progress. It holds the supervisor until it is finished.
pub struct Remove {
    sd: SdHandle,
    collection: u32,
    phase: RemovePhase,
}

impl View for Remove {
    type V = RemoveModel;

    closed spec fn view(&self) -> RemoveModel {
        RemoveModel {
            state: self.sd.state(),
            progress: self.sd.progress(),
            collection: self.collection,
            phase: self.phase,
        }
    }
}

impl Storage {
    /// Begins to delete the file of `collection` at time `now`.
    pub fn remove(self, collection: u32, now: i32) -> (op: Remove)
        ensures
            op.wf(),
            op@ == remove_begin(self@, collection, now),
    {
        let sd = self.acquire(now);
        let mut op = Remove { sd, collection, phase: RemovePhase::Acquiring };
        op.settle();
        op
    }
}

impl Remove {
    /// Well-formedness: the model is one that a deletion can have.
    pub open spec fn wf(&self) -> bool {
        remove_wf(self@)
    }

    fn settle(&mut self)
        requires
            progress_wf(old(self)@.progress),
        ensures
            final(self).wf(),
            final(self)@ == remove_settle(old(self)@),
    {
        match self.sd.ready() {
            Ok(()) => {
                self.phase = RemovePhase::Deleting;
            },
            Err(e) => {
                if self.sd.action().is_none() {
                    self.phase = RemovePhase::Done(Err(e));
                } else {
                    self.phase = RemovePhase::Acquiring;
                }
            },
        }
    }

    /// What the driver is to do next; `None` once the deletion is over.
    pub fn action(&self) -> (a: Option<Action>)
        requires
            self.wf(),
        ensures
            a == remove_action(self@),
            a is None <==> self@.phase is Done,
    {
        match self.phase {
            RemovePhase::Acquiring => self.sd.action(),
            RemovePhase::Deleting => Some(
                Action::Delete { dir: self.collection / DIR_SIZE, collection: self.collection },
            ),
            RemovePhase::Done(_) => None,
        }
    }

    /// Takes what the driver reports of the last action.
    pub fn feed(&mut self, event: Event)
        requires
            old(self).wf(),
        ensures
            final(self).wf(),
            final(self)@ == remove_step(old(self)@, event),
    {
        match (self.phase, event) {
            (RemovePhase::Acquiring, event) => {
                self.sd.feed(event);
                self.settle();
            },
            (RemovePhase::Deleting, Event::Deleted(outcome)) => {
                self.phase = RemovePhase::Done(self.sd.remove_collection(outcome));
            },
            _ => {},
        }
    }

    /// Ends the deletion and gives the supervisor back. A deletion that is
    /// given up before it is over has deleted nothing that can be relied on.
    pub fn finish(self) -> (r: (Storage, Result<(), StorageErr>))
        ensures
            r.0@ == self@.state,
            r.1 == match self@.phase {
                RemovePhase::Done(done) => done,
                _ => Err(StorageErr::Uninitialized),
            },
    {
        let done = match self.phase {
            RemovePhase::Done(done) => done,
            _ => Err(StorageErr::Uninitialized),
        };
        (self.sd.release(), done)
    }
}

} // verus!
