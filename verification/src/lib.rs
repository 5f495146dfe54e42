//! Control messages and deferred work for an actor runtime.
//!
//! A unit of work is wrapped in one place and run in another. The wrapper forgets the
//! concrete type of the closure it holds, so that one mailbox can carry many kinds of
//! work, and keeps the type of what the work returns, so that the answer can be routed
//! back to whoever asked for it.
//!
//! * [`message`]: the binding from a message type to the type of its answer.
//! * [`signal`]: [`SystemExit`] and [`StopArbiter`], one-way directives that carry a
//!   status code.
//! * [`execute`]: [`Execute`], a fallible computation to be run once.
//! * [`actor`] and [`start`]: [`StartActor`], the construction of an actor to be run once
//!   in the context that receives it, and what it asks of the actor type.
//!
//! The mailbox, the scheduling loop and the shutdown sequence are not part of this
//! crate; it produces what they consume.

pub mod actor;
pub mod execute;
pub mod message;
pub mod signal;
pub mod start;

pub use crate::actor::Actor;
pub use crate::execute::Execute;
pub use crate::message::Message;
pub use crate::signal::{StopArbiter, SystemExit};
pub use crate::start::StartActor;
