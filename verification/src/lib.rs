//! A minimal stack-based bytecode virtual machine for a Forth-like
//! language: bytes of a program buffer are dispatched as opcodes that
//! manipulate a typed operand stack, a return-address stack, and an
//! optional flat memory array, with a pluggable extension point for
//! host-defined opcodes.

pub mod data;
pub mod fbits;
pub mod interp;
pub mod laws;
pub mod stack;

pub use data::Data;
pub use data::Error;
pub use data::Pair;
pub use interp::AtomExtender;
pub use interp::NullExtender;
pub use interp::run;
pub use interp::run_with_limit;
pub use stack::Stack;
