//! A fixed-size worker pool: the decisions it takes, stated and proved.
//!
//! The pool hands each submitted job, paired with a completion callback, to
//! exactly one worker; a worker runs the job and calls the callback only when
//! the job asks for shutdown; releasing the pool first sends one termination
//! message per worker and then joins the workers in order. The `http` module
//! holds what the small web server built on the pool decides about a request.
use vstd::prelude::*;

pub mod delivery;
pub mod http;
pub mod pool;
pub mod status;
pub mod teardown;
pub mod worker;

pub use status::ThreadPoolStatus;
