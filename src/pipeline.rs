//! The course of one upload request: stage the file, take a slot of the
//! admission gate, forward the file, give the slot back, delete the staged
//! file, answer. The program performs each action and reports what came of
//! it; every request that staged a file takes and gives back one slot and
//! deletes its file once, whatever fails on the way.
use vstd::prelude::*;
use crate::error::UploadError;

verus! {

/// Where a request stands.
#[derive(PartialEq, Eq, Structural, Clone, Copy, Debug)]
pub enum Phase {
    Staging,
    Admission,
    Forwarding,
    Releasing,
    Cleaning,
    Done,
}

/// What came of the last action.
#[derive(Debug)]
pub enum Event {
    /// Staging ended, with the staged file's path or the failure.
    Staged(Result<String, UploadError>),
    /// A slot of the admission gate was granted.
    Admitted,
    /// The exchange with the platform ended, with the public address or the
    /// failure.
    Forwarded(Result<String, UploadError>),
    /// The slot was given back.
    Released,
    /// Deleting the staged file was attempted; `true` when it succeeded.
    Deleted(bool),
}

/// What to do next.
#[derive(Debug)]
pub enum Action {
    /// Wait for a slot of the admission gate.
    Acquire,
    /// Send the staged file at this path to the platform.
    Forward(String),
    /// Give the slot back.
    Release,
    /// Delete the staged file at this path.
    Delete(String),
    /// Answer the caller; the request is over.
    Respond(Result<String, UploadError>),
}

pub struct Request {
    phase: Phase,
    path: String,
    outcome: Result<String, UploadError>,
    created: u8,
    deleted: u8,
    acquired: u8,
    released: u8,
}

impl Request {
    pub closed spec fn phase_view(&self) -> Phase {
        self.phase
    }

    /// The path of the staged file, once there is one.
    pub closed spec fn path_view(&self) -> String {
        self.path
    }

    /// What the exchange with the platform gave, once it ended.
    pub closed spec fn outcome_view(&self) -> Result<String, UploadError> {
        self.outcome
    }

    /// How many staged files this request created.
    pub closed spec fn files_created(&self) -> nat {
        self.created as nat
    }

    /// How many times this request tried to delete its staged file.
    pub closed spec fn deletions(&self) -> nat {
        self.deleted as nat
    }

    /// How many slots this request took.
    pub closed spec fn acquires(&self) -> nat {
        self.acquired as nat
    }

    /// How many slots this request gave back.
    pub closed spec fn releases(&self) -> nat {
        self.released as nat
    }

    /// The counts each phase implies: one file and, from admission on, one
    /// slot, each given back once before the answer.
    pub closed spec fn wf(&self) -> bool {
        match self.phase {
            Phase::Staging => self.created == 0 && self.acquired == 0 && self.released == 0
                && self.deleted == 0,
            Phase::Admission => self.created == 1 && self.acquired == 0 && self.released == 0
                && self.deleted == 0,
            Phase::Forwarding | Phase::Releasing => self.created == 1 && self.acquired == 1
                && self.released == 0 && self.deleted == 0,
            Phase::Cleaning => self.created == 1 && self.acquired == 1 && self.released == 1
                && self.deleted == 0,
            Phase::Done => (self.created == 0 && self.acquired == 0 && self.released == 0
                && self.deleted == 0) || (self.created == 1 && self.acquired == 1
                && self.released == 1 && self.deleted == 1),
        }
    }

    /// A request that has not staged its file yet.
    pub fn new() -> (r: Request)
        ensures
            r.wf(),
            r.phase_view() == Phase::Staging,
            r.files_created() == 0,
    {
        Request {
            phase: Phase::Staging,
            path: String::new(),
            outcome: Err(UploadError::Upstream),
            created: 0,
            deleted: 0,
            acquired: 0,
            released: 0,
        }
    }

    /// Where the request stands.
    pub fn phase(&self) -> (r: Phase)
        ensures
            r == self.phase_view(),
    {
        self.phase
    }

    /// Takes in what came of the last action and says what to do next.
    /// An event that does not fit the phase changes nothing and gives `None`.
    pub fn step(&mut self, ev: Event) -> (r: Option<Action>)
        requires
            old(self).wf(),
        ensures
            final(self).wf(),
            match (old(self).phase_view(), ev) {
                (Phase::Staging, Event::Staged(Ok(p))) => {
                    &&& r == Some(Action::Acquire)
                    &&& final(self).phase_view() == Phase::Admission
                    &&& final(self).path_view() == p
                    &&& final(self).files_created() == 1
                },
                (Phase::Staging, Event::Staged(Err(e))) => {
                    &&& r == Some(Action::Respond(Err(e)))
                    &&& final(self).phase_view() == Phase::Done
                    &&& final(self).files_created() == 0
                },
                (Phase::Admission, Event::Admitted) => {
                    &&& r == Some(Action::Forward(old(self).path_view()))
                    &&& final(self).phase_view() == Phase::Forwarding
                    &&& final(self).path_view() == old(self).path_view()
                },
                (Phase::Forwarding, Event::Forwarded(res)) => {
                    &&& r == Some(Action::Release)
                    &&& final(self).phase_view() == Phase::Releasing
                    &&& final(self).path_view() == old(self).path_view()
                    &&& final(self).outcome_view() == res
                },
                (Phase::Releasing, Event::Released) => {
                    &&& r == Some(Action::Delete(old(self).path_view()))
                    &&& final(self).phase_view() == Phase::Cleaning
                    &&& final(self).outcome_view() == old(self).outcome_view()
                },
                (Phase::Cleaning, Event::Deleted(_)) => {
                    &&& r == Some(Action::Respond(old(self).outcome_view()))
                    &&& final(self).phase_view() == Phase::Done
                },
                _ => {
                    &&& r is None
                    &&& *final(self) == *old(self)
                },
            },
    {
        match (self.phase, ev) {
            (Phase::Staging, Event::Staged(Ok(p))) => {
                self.phase = Phase::Admission;
                self.path = p;
                self.created = 1;
                Some(Action::Acquire)
            },
            (Phase::Staging, Event::Staged(Err(e))) => {
                self.phase = Phase::Done;
                Some(Action::Respond(Err(e)))
            },
            (Phase::Admission, Event::Admitted) => {
                self.phase = Phase::Forwarding;
                self.acquired = 1;
                Some(Action::Forward(self.path.clone()))
            },
            (Phase::Forwarding, Event::Forwarded(res)) => {
                self.phase = Phase::Releasing;
                self.outcome = res;
                Some(Action::Release)
            },
            (Phase::Releasing, Event::Released) => {
                self.phase = Phase::Cleaning;
                self.released = 1;
                Some(Action::Delete(self.path.clone()))
            },
            (Phase::Cleaning, Event::Deleted(_)) => {
                self.phase = Phase::Done;
                self.deleted = 1;
                let out = match &self.outcome {
                    Ok(url) => Ok(url.clone()),
                    Err(e) => Err(*e),
                };
                Some(Action::Respond(out))
            },
            _ => None,
        }
    }
}

/// A finished request leaves nothing behind: every staged file it created
/// it tried to delete, once, and every slot it took it gave back, once.
pub proof fn lemma_request_leaves_nothing(r: Request)
    requires
        r.wf(),
        r.phase_view() == Phase::Done,
    ensures
        r.files_created() <= 1,
        r.deletions() == r.files_created(),
        r.releases() == r.acquires(),
{
}

} // verus!
