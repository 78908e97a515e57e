//! The execution engine and what it runs on.
pub mod error;
pub mod integer;
pub mod integer64;
pub mod rounding;
pub mod float32;
pub mod float64;
pub mod value;
pub mod memory;
pub mod module;
pub mod runner;
pub mod program;
