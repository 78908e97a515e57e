//! Builders for the definitions that a module is instantiated from.
pub mod invoke;
pub mod memory;
