//! The binding from a message type to the type of its answer.

use vstd::prelude::*;

verus! {

/// A value that can travel through a mailbox.
///
/// Each message type names exactly one result type. The binding belongs to the type and
/// not to a value of it, so a sender knows statically what it will be answered with,
/// whatever else the mailbox carries.
pub trait Message {
    /// What the receiver answers this message with.
    type Result: 'static;
}

} // verus!
