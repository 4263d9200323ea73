//! A minimal just-in-time compilation engine.
//!
//! The crate builds a small typed intermediate representation (IR) of a
//! function — basic-block instructions over SSA variables — checks the
//! SSA and typing invariants while the IR is built, and hands the finished
//! function graph to a native code generator, which emits machine code
//! into an in-process module and returns the address of the entry point.
//!
//! The IR construction and its invariants are verified; the native
//! backend (instruction selection, register allocation, linking) is an
//! outside code generator and is trusted.

pub mod errors;
pub mod ir;
pub mod builder;
pub mod backend;
pub mod engine;
