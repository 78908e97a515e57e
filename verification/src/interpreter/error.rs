//! The kinds of failure that end a call.
use vstd::prelude::*;

verus! {

/// Why a call, or a registration, failed.
#[derive(Clone, Copy, Debug, PartialEq, Eq, Structural)]
pub enum Error {
    /// A module of that name is already registered.
    Program,
    /// The module has no memory at the index used.
    Memory,
    /// The module has no global at the index used.
    Global,
    /// A local index is out of range.
    Local,
    /// The value stack is empty, or its top has the wrong tag.
    ValueStack,
    /// The frame stack is empty, or a frame's value limit lies above the value stack.
    FrameStack,
    /// A value does not have the type that was asked for.
    Value,
    /// The body cannot be executed as given: no instruction at the current
    /// position, arguments that do not fit the signature, or the
    /// instruction budget is used up.
    Interpreter,
    /// A runtime fault defined by WebAssembly.
    Trap,
    /// The instruction is outside what this interpreter executes.
    NotImplemented,
}

} // verus!
