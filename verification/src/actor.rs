//! What deferred construction asks of an actor type.

use vstd::prelude::*;

verus! {

/// An isolated unit of state and behaviour that is reached only through its address.
///
/// The runtime that hosts the actor decides what a context and an address are. This
/// crate only obtains a context, lets the construction logic work on it, and hands actor
/// and context over in return for an address. It relies on nothing about the two
/// functions but what the implementing type states of them.
pub trait Actor: Sized + 'static {
    /// The execution context that an instance is constructed and run in.
    type Context;

    /// The handle by which a running instance is sent messages.
    type Address: Send + 'static;

    /// Allocates a context in which no actor has been constructed yet.
    fn allocate() -> Self::Context;

    /// Registers the instance in the context and returns its address.
    fn start(self, ctx: Self::Context) -> Self::Address;
}

/// Whether `ctx` is a context as `A::allocate` can return it.
pub open spec fn fresh<A: Actor>(ctx: A::Context) -> bool {
    call_ensures(A::allocate, (), ctx)
}

/// Whether `addr` is an address that `A::start` can return for the actor `act` and the
/// context `ctx`.
pub open spec fn addresses<A: Actor>(addr: A::Address, act: A, ctx: A::Context) -> bool {
    call_ensures(A::start, (act, ctx), addr)
}

} // verus!
