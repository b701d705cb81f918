use crate::engine::STATUS_OK;
use crate::error::Error;
use vstd::prelude::*;

verus! {

/// The process-wide record of the engine's one-time initialisation.
///
/// A driver keeps one value of this type for the whole process, behind
/// whatever lock it uses, and makes the engine's initialisation call only
/// while [`Bootstrap::needs_call`] holds. The first status recorded stands
/// for the rest of the process: a failure is not retried.
#[derive(Debug, Clone, Copy, PartialEq, Eq, Structural)]
pub struct Bootstrap {
    /// The status of the one initialisation call, once it was made.
    pub recorded: Option<i32>,
}

impl Bootstrap {
    /// The record of a process in which the engine was not initialised yet.
    pub fn new() -> (gate: Bootstrap)
        ensures
            gate.recorded is None,
    {
        Bootstrap { recorded: None }
    }

    /// Whether the initialisation call is still to be made.
    pub fn needs_call(&self) -> (due: bool)
        ensures
            due == (self.recorded is None),
    {
        self.recorded.is_none()
    }

    /// What recording `status` makes of a record: the first status is kept.
    pub open spec fn recording(self, status: i32) -> Bootstrap {
        if self.recorded is None {
            Bootstrap { recorded: Some(status) }
        } else {
            self
        }
    }

    /// Records the status of the initialisation call. Only the first
    /// recording counts; later ones leave the record as it is.
    pub fn record(&mut self, status: i32)
        ensures
            *final(self) == old(self).recording(status),
    {
        if self.recorded.is_none() {
            self.recorded = Some(status);
        }
    }

    /// The status that every session of this process is told: the recorded
    /// one, if there is one.
    pub fn status(&self) -> (status: Option<i32>)
        ensures
            status == self.recorded,
    {
        self.recorded
    }

    /// The outcome of initialisation as every caller sees it: nothing before
    /// the call was made, then success or `InitializationFailed` for good.
    pub fn outcome(&self) -> (result: Option<Result<(), Error>>)
        ensures
            self.recorded is None <==> result is None,
            self.recorded == Some(STATUS_OK) <==> result == Some(Ok::<(), Error>(())),
            self.recorded is Some && self.recorded != Some(STATUS_OK) <==> (result is Some
                && result->0 is Err && result->0->Err_0@
                == crate::error::Failure::InitializationFailed),
    {
        match self.recorded {
            None => None,
            Some(status) => if status == STATUS_OK {
                Some(Ok(()))
            } else {
                Some(Err(Error::InitializationFailed))
            },
        }
    }
}

} // verus!
