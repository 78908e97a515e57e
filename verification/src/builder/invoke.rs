//! What a builder hands its finished definition to.
use vstd::prelude::*;

verus! {

/// A callback that receives the definition a builder has put together.
pub trait Invoke<A>: Sized {
    /// What the callback makes of the definition.
    type Result;

    /// The result of `invoke`, as a function of the callback and its argument.
    spec fn spec_invoke(self, arg: A) -> Self::Result;

    /// Hands `arg` to the callback.
    fn invoke(self, arg: A) -> (r: Self::Result)
        ensures
            r == self.spec_invoke(arg),
    ;
}

/// The callback that returns the definition unchanged.
pub struct Identity;

impl<A> Invoke<A> for Identity {
    type Result = A;

    open spec fn spec_invoke(self, arg: A) -> A {
        arg
    }

    fn invoke(self, arg: A) -> (r: A) {
        arg
    }
}

} // verus!
