use vstd::prelude::*;

verus! {

/// What a job reports when it completes.
///
/// `Terminate` does not stop a worker: it asks the pool's owner to begin
/// shutdown, which the worker signals by running the job's callback.
#[derive(Clone, Copy, Debug, PartialEq, Eq, Structural)]
pub enum ThreadPoolStatus {
    Active,
    Terminate,
}

impl ThreadPoolStatus {
    /// Whether a job that completed with this status has its callback run.
    pub open spec fn requests_shutdown_spec(self) -> bool {
        self is Terminate
    }

    /// Whether a job that completed with this status has its callback run.
    pub fn requests_shutdown(&self) -> (r: bool)
        ensures
            r == self.requests_shutdown_spec(),
    {
        match self {
            ThreadPoolStatus::Active => false,
            ThreadPoolStatus::Terminate => true,
        }
    }
}

} // verus!
