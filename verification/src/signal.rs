//! One-way directives to the runtime.
//!
//! A signal carries a status code and is answered with `()`: sending one does not wait
//! for what it asks for. This crate does not act on a signal; the code it was made with
//! is all that it holds.

use vstd::prelude::*;
use crate::message::Message;

verus! {

/// Asks the whole runtime to shut down. The process is to end with the carried code as
/// its exit status.
pub struct SystemExit(pub i32);

impl Message for SystemExit {
    type Result = ();
}

/// Asks the execution context that receives it to stop its loop with the carried code.
/// No other context is addressed by it.
pub struct StopArbiter(pub i32);

impl Message for StopArbiter {
    type Result = ();
}

} // verus!
