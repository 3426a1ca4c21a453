//! Bytecode back end for a small statically typed language.
//!
//! The library lowers a type-checked abstract syntax tree into a linear
//! bytecode program for a stack-based virtual machine.  Every emitted byte
//! sequence is pinned down by the specification functions in [`emission`],
//! and the executable compiler in [`compiler`] is proved to produce exactly
//! those bytes.

pub mod ast;
pub mod compiler;
pub mod directory;
pub mod emission;
pub mod encoding;
pub mod errors;
pub mod instruction;
pub mod laws;
pub mod types;
