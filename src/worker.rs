use vstd::prelude::*;

use crate::status::ThreadPoolStatus;

verus! {

/// What travels on the work channel: a job with its callback, or the
/// instruction for the worker that receives it to stop.
pub enum Message<J, C> {
    NewJob(J, C),
    Terminate,
}

/// The two states of a worker's receive loop.
#[derive(Clone, Copy, Debug, PartialEq, Eq, Structural)]
pub enum WorkerState {
    Running,
    Stopped,
}

/// What handling one message did.
#[derive(Clone, Copy, Debug, PartialEq, Eq, Structural)]
pub struct Handled {
    /// The worker's state after the message.
    pub state: WorkerState,
    /// The status that the job returned, if the message carried a job.
    pub status: Option<ThreadPoolStatus>,
    /// Whether the job's callback was run.
    pub callback_ran: bool,
}

impl<J, C> Message<J, C> {
    pub open spec fn is_job(&self) -> bool {
        self is NewJob
    }
}

/// The state a worker is in after a message: a job keeps it running, a
/// termination message stops it.
pub open spec fn next_state(is_job: bool) -> WorkerState {
    if is_job {
        WorkerState::Running
    } else {
        WorkerState::Stopped
    }
}

/// What a message asks of the worker that receives it: its job may be called,
/// and its callback may be called whenever the job can have asked for shutdown.
pub open spec fn message_ready<J: FnOnce() -> ThreadPoolStatus, C: FnOnce()>(
    msg: Message<J, C>,
) -> bool {
    match msg {
        Message::NewJob(job, callback) => {
            &&& job.requires(())
            &&& forall|s: ThreadPoolStatus| #[trigger]
                job.ensures((), s) && s.requests_shutdown_spec() ==> callback.requires(())
        },
        Message::Terminate => true,
    }
}

/// One turn of a worker's loop, on the worker's own thread: a job is run, and
/// its callback is run after it exactly when the job returned `Terminate`; a
/// termination message runs nothing and stops the worker.
pub fn handle_message<J: FnOnce() -> ThreadPoolStatus, C: FnOnce()>(msg: Message<J, C>) -> (r:
    Handled)
    requires
        message_ready(msg),
    ensures
        r.state == next_state(msg.is_job()),
        match msg {
            Message::NewJob(job, callback) => {
                &&& r.status is Some
                &&& job.ensures((), r.status->0)
                &&& r.callback_ran == r.status->0.requests_shutdown_spec()
                &&& r.callback_ran ==> callback.ensures((), ())
            },
            Message::Terminate => r.status is None && !r.callback_ran,
        },
{
    match msg {
        Message::NewJob(job, callback) => {
            let status = job();
            let callback_ran = status.requests_shutdown();
            if callback_ran {
                callback();
            }
            Handled { state: WorkerState::Running, status: Some(status), callback_ran }
        },
        Message::Terminate => Handled { state: WorkerState::Stopped, status: None, callback_ran: false },
    }
}

} // verus!
