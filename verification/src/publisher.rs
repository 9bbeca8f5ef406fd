//! Write-once publication of the achieved-frequency snapshot.
//!
//! The snapshot is stored exactly once, at the end of a successful
//! sequencing run, and is read-only forever after: publishing twice is
//! rejected, and reading before publication yields nothing. The
//! process-wide cell itself lives with the caller; this type carries the
//! write-once discipline.

use vstd::prelude::*;

use crate::plan::Clocks;

verus! {

/// The misuse a publisher rejects.
#[derive(Clone, Copy, PartialEq, Eq, Structural, Debug)]
pub enum PublishError {
    /// A snapshot was already published; downstream drivers may have
    /// cached frequencies derived from it.
    AlreadyPublished,
}

/// A write-once cell for the achieved-frequency snapshot.
pub struct ClockPublisher {
    slot: Option<Clocks>,
}

impl ClockPublisher {
    /// The published snapshot, if any.
    pub closed spec fn published(self) -> Option<Clocks> {
        self.slot
    }

    /// A publisher that has not yet been written.
    pub fn new() -> (p: ClockPublisher)
        ensures
            p.published() is None,
    {
        ClockPublisher { slot: None }
    }

    /// Store the snapshot, exactly once. A second call changes nothing
    /// and reports the misuse.
    pub fn publish(&mut self, clocks: Clocks) -> (r: Result<(), PublishError>)
        ensures
            old(self).published() is None ==> r is Ok && final(self).published() == Some(clocks),
            old(self).published() is Some ==> r == Result::<(), PublishError>::Err(
                PublishError::AlreadyPublished,
            ) && final(self).published() == old(self).published(),
    {
        match self.slot {
            None => {
                self.slot = Some(clocks);
                Ok(())
            },
            Some(_) => Err(PublishError::AlreadyPublished),
        }
    }

    /// Read the published snapshot. Before publication there is nothing
    /// to read: no peripheral driver can legally initialize yet.
    pub fn get(&self) -> (r: Option<&Clocks>)
        ensures
            match r {
                Some(c) => self.published() == Some(*c),
                None => self.published() is None,
            },
    {
        match &self.slot {
            Some(c) => Some(c),
            None => None,
        }
    }
}

} // verus!
