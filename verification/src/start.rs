//! The construction of an actor, wrapped for running later, in another execution context.

use vstd::prelude::*;
use crate::actor::{addresses, fresh, Actor};
use crate::message::Message;

verus! {

/// A construction that can be run once, seen without its concrete type.
trait FnBox<A: Actor>: Send + 'static {
    /// Whether the construction may be run.
    spec fn ready(&self) -> bool;

    /// Whether `addr` is an address that running the construction can return.
    spec fn yields(&self, addr: A::Address) -> bool;

    /// Runs the construction, which uses it up.
    fn call_box(self: Box<Self>) -> (addr: A::Address)
        requires
            self.ready(),
        ensures
            self.yields(addr),
    ;
}

impl<A: Actor, F: FnOnce() -> A::Address + Send + 'static> FnBox<A> for F {
    spec fn ready(&self) -> bool {
        call_requires(*self, ())
    }

    spec fn yields(&self, addr: A::Address) -> bool {
        call_ensures(*self, (), addr)
    }

    fn call_box(self: Box<Self>) -> (addr: A::Address) {
        (*self)()
    }
}

/// A deferred constructor: the making of an actor of type `A`, to be run once, in the
/// execution context that receives it.
///
/// The wrapper owns the construction and nothing else. Running it takes the wrapper by
/// value, so there is no wrapper left to run a second time. Nothing runs when a wrapper
/// is dropped.
#[verifier::reject_recursive_types(A)]
pub struct StartActor<A: Actor>(Box<dyn FnBox<A>>);

impl<A: Actor> Message for StartActor<A> {
    type Result = A::Address;
}

impl<A: Actor> StartActor<A> {
    /// Every wrapper holds a construction that may be run, so whoever receives one can
    /// run it without knowing what it is.
    #[verifier::type_invariant]
    spec fn runnable(&self) -> bool {
        self.0.ready()
    }

    /// Whether `addr` is an address that running the wrapped construction can return.
    pub closed spec fn yields(&self, addr: A::Address) -> bool {
        self.0.yields(addr)
    }

    /// Forgets the concrete type of the construction `run`.
    fn erase<F>(run: F) -> (m: Self) where F: FnOnce() -> A::Address + Send + 'static
        requires
            call_requires(run, ()),
        ensures
            forall|addr: A::Address| m.yields(addr) <==> call_ensures(run, (), addr),
    {
        StartActor(Box::new(run))
    }

    /// Wraps the factory `f` without running it.
    ///
    /// The factory has to accept every fresh context; one that states no precondition
    /// does. Every address that the wrapper yields then comes about in one way: a fresh
    /// context was allocated, `f` ran on it and returned an actor, and the address is
    /// the one that `A::start` gave for that actor and the context as `f` left it.
    pub fn new<F>(f: F) -> (m: Self) where F: FnOnce(&mut A::Context) -> A + Send + 'static
        requires
            forall|ctx: &mut A::Context| fresh::<A>(*ctx) ==> #[trigger] call_requires(f, (ctx,)),
        ensures
            forall|addr: A::Address|
                m.yields(addr) ==> exists|ctx: &mut A::Context, act: A|
                    {
                        &&& fresh::<A>(*ctx)
                        &&& #[trigger] call_ensures(f, (ctx,), act)
                        &&& addresses::<A>(addr, act, *final(ctx))
                    },
    {
        let run = move || -> (addr: A::Address)
            ensures
                exists|ctx: &mut A::Context, act: A|
                    {
                        &&& fresh::<A>(*ctx)
                        &&& #[trigger] call_ensures(f, (ctx,), act)
                        &&& addresses::<A>(addr, act, *final(ctx))
                    },
            {
                let mut ctx = A::allocate();
                let act = f(&mut ctx);
                act.start(ctx)
            };
        Self::erase(run)
    }

    /// Runs the wrapped construction and returns the new actor's address.
    ///
    /// Nothing is caught here: if the construction unwinds, so does this call.
    pub fn call(self) -> (addr: A::Address)
        ensures
            self.yields(addr),
    {
        proof {
            use_type_invariant(&self);
        }
        self.0.call_box()
    }
}

/// Construction runs on a fresh context: when every address that the wrapper `m` yields
/// comes from a run of the factory `f`, as it does for a wrapper made from `f`, then an
/// address `addr` that running `m` returned is the address of an actor that `f` built
/// with a fresh context in its hands, in that context as `f` left it.
pub proof fn lemma_call_runs_factory<A: Actor, F: FnOnce(&mut A::Context) -> A>(
    m: StartActor<A>,
    f: F,
    addr: A::Address,
)
    requires
        forall|a: A::Address|
            m.yields(a) ==> exists|ctx: &mut A::Context, act: A|
                {
                    &&& fresh::<A>(*ctx)
                    &&& #[trigger] call_ensures(f, (ctx,), act)
                    &&& addresses::<A>(a, act, *final(ctx))
                },
        m.yields(addr),
    ensures
        exists|ctx: &mut A::Context, act: A|
            {
                &&& fresh::<A>(*ctx)
                &&& #[trigger] call_ensures(f, (ctx,), act)
                &&& addresses::<A>(addr, act, *final(ctx))
            },
{
}

} // verus!
