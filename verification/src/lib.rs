//! A verified foreign-function boundary around an external assembler engine.
//!
//! The library compiles assembly source text to binary bytes by delegating the
//! assembly language itself to the `customasm` engine; what it owns, states and
//! proves is the boundary: which status code each combination of arguments
//! yields, when a produced buffer is handed to the caller, and how the paired
//! transfer/release lifecycle of that buffer behaves.

pub mod boundary;
pub mod engine;
pub mod status;

pub use boundary::assemble_str_to_binary;
pub use boundary::free_binary;
pub use status::AsmResult;
