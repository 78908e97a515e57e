//! Builder for the definition of a linear memory.
use vstd::prelude::*;
use crate::builder::invoke::{Identity, Invoke};

verus! {

/// The limits of a linear memory, in pages.
#[derive(Clone, Copy, Debug, PartialEq, Eq, Structural)]
pub struct MemoryDefinition {
    /// The initial size.
    pub min: u32,
    /// The cap on growth, if there is one.
    pub max: Option<u32>,
}

impl Default for MemoryDefinition {
    /// One page, without a cap.
    fn default() -> (r: Self)
        ensures
            r == (MemoryDefinition { min: 1, max: None }),
    {
        MemoryDefinition { min: 1, max: None }
    }
}

/// Puts a `MemoryDefinition` together and hands it to a callback.
pub struct MemoryBuilder<F = Identity> {
    callback: F,
    memory: MemoryDefinition,
}

impl MemoryBuilder {
    /// A builder that returns the definition itself.
    pub fn new() -> (r: Self)
        ensures
            r.definition() == (MemoryDefinition { min: 1, max: None }),
            r.callback() == Identity,
    {
        MemoryBuilder::with_callback(Identity)
    }
}

impl<F> MemoryBuilder<F> where F: Invoke<MemoryDefinition> {
    /// The definition as built so far.
    pub closed spec fn definition(self) -> MemoryDefinition {
        self.memory
    }

    /// The callback that `build` will hand the definition to.
    pub closed spec fn callback(self) -> F {
        self.callback
    }

    /// A builder that starts from the default definition, one page without a cap.
    pub fn with_callback(callback: F) -> (r: Self)
        ensures
            r.definition() == (MemoryDefinition { min: 1, max: None }),
            r.callback() == callback,
    {
        MemoryBuilder { callback: callback, memory: MemoryDefinition::default() }
    }

    /// Sets the initial size.
    pub fn with_min(self, min: u32) -> (r: Self)
        ensures
            r.definition() == (MemoryDefinition { min: min, max: self.definition().max }),
            r.callback() == self.callback(),
    {
        let mut builder = self;
        builder.memory.min = min;
        builder
    }

    /// Sets the cap on growth.
    pub fn with_max(self, max: Option<u32>) -> (r: Self)
        ensures
            r.definition() == (MemoryDefinition { min: self.definition().min, max: max }),
            r.callback() == self.callback(),
    {
        let mut builder = self;
        builder.memory.max = max;
        builder
    }

    /// Hands the definition to the callback and returns what it makes of it.
    pub fn build(self) -> (r: F::Result)
        ensures
            r == self.callback().spec_invoke(self.definition()),
    {
        self.callback.invoke(self.memory)
    }
}

} // verus!
