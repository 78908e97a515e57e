//! An interpreter for validated WebAssembly function bodies: runtime
//! values with their numeric semantics, linear memory and globals, the
//! per-call execution context, the instruction evaluator and the registry
//! of module instances.
pub mod builder;
pub mod elements;
pub mod interpreter;
