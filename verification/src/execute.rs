//! A fallible computation wrapped for running later, in another execution context.

use vstd::prelude::*;
use crate::message::Message;

verus! {

/// A computation that can be run once, seen without its concrete type.
trait FnExec<I: Send + 'static, E: Send + 'static>: Send + 'static {
    /// Whether the computation may be run.
    spec fn ready(&self) -> bool;

    /// Whether `r` is a value that running the computation can return.
    spec fn yields(&self, r: Result<I, E>) -> bool;

    /// Runs the computation, which uses it up.
    fn call_box(self: Box<Self>) -> (r: Result<I, E>)
        requires
            self.ready(),
        ensures
            self.yields(r),
    ;
}

impl<I, E, F> FnExec<I, E> for F where
    I: Send + 'static,
    E: Send + 'static,
    F: FnOnce() -> Result<I, E> + Send + 'static,
{
    spec fn ready(&self) -> bool {
        call_requires(*self, ())
    }

    spec fn yields(&self, r: Result<I, E>) -> bool {
        call_ensures(*self, (), r)
    }

    fn call_box(self: Box<Self>) -> (r: Result<I, E>) {
        (*self)()
    }
}

/// A deferred function: a fallible computation to be run once, somewhere else.
///
/// The wrapper owns the computation and nothing else. Running it takes the wrapper by
/// value, so there is no wrapper left to run a second time. Nothing runs when a wrapper
/// is dropped: a computation that was never asked for never happens.
#[verifier::reject_recursive_types(I)]
#[verifier::reject_recursive_types(E)]
pub struct Execute<I: Send + 'static = (), E: Send + 'static = ()>(Box<dyn FnExec<I, E>>);

impl<I: Send + 'static, E: Send + 'static> Message for Execute<I, E> {
    type Result = Result<I, E>;
}

impl<I, E> Execute<I, E> where I: Send + 'static, E: Send + 'static {
    /// Every wrapper holds a computation that may be run, so whoever receives one can
    /// run it without knowing what it is.
    #[verifier::type_invariant]
    spec fn runnable(&self) -> bool {
        self.0.ready()
    }

    /// Whether `r` is a value that the wrapped computation can return.
    pub closed spec fn yields(&self, r: Result<I, E>) -> bool {
        self.0.yields(r)
    }

    /// Whether this wrapper stands for `f`: it yields exactly the values that a call of
    /// `f` can return.
    pub open spec fn wraps<F: FnOnce() -> Result<I, E>>(&self, f: F) -> bool {
        forall|r: Result<I, E>| self.yields(r) <==> call_ensures(f, (), r)
    }

    /// Wraps `f` without running it.
    ///
    /// Whoever makes the wrapper answers for the computation's precondition, since the
    /// context that runs it cannot. A closure that states no precondition meets this by
    /// itself.
    pub fn new<F>(f: F) -> (m: Self) where F: FnOnce() -> Result<I, E> + Send + 'static
        requires
            call_requires(f, ()),
        ensures
            m.wraps(f),
    {
        Execute(Box::new(f))
    }

    /// Runs the wrapped computation and hands back its result as it is, success or
    /// failure.
    ///
    /// Nothing is caught here: if the computation unwinds, so does this call.
    pub fn exec(self) -> (r: Result<I, E>)
        ensures
            self.yields(r),
    {
        proof {
            use_type_invariant(&self);
        }
        self.0.call_box()
    }
}

/// Identity pass-through: if the computation `f` can only return `v`, then a wrapper
/// made from `f` can only return `v`, be it `Ok` of a value or `Err` of an error.
pub proof fn lemma_exec_passes_through<I, E, F>(m: Execute<I, E>, f: F, v: Result<I, E>) where
    I: Send + 'static,
    E: Send + 'static,
    F: FnOnce() -> Result<I, E>,

    requires
        m.wraps(f),
        forall|r: Result<I, E>| call_ensures(f, (), r) ==> r == v,
    ensures
        forall|r: Result<I, E>| m.yields(r) ==> r == v,
{
}

} // verus!
