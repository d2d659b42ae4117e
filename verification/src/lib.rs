//! A runtime for a class-file-based object-oriented bytecode virtual machine.
//!
//! The crate resolves a structured class representation into an executable
//! runtime class, and interprets decoded instruction streams against a
//! per-call stack of locals and an operand stack, with heap-allocated
//! objects and integer arrays shared by handle.
//!
//! The dispatch semantics are stated as specification functions in
//! [`interpreter`], the executable interpreter is proved to implement
//! them, and [`laws`] proves the runtime's core guarantees against them.

pub mod classfile;
pub mod descriptor;
pub mod disassembler;
pub mod heap;
pub mod instruction;
pub mod interpreter;
pub mod laws;
pub mod rtclass;
pub mod stack;
pub mod text;
pub mod value;
