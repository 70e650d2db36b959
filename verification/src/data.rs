use vstd::prelude::*;

verus! {

/// A value manipulated by the machine: a 64-bit signed integer, or an
/// IEEE 754 binary64 float carried as its raw bit pattern.
///
/// Values are immutable once constructed and copied on every stack or
/// memory operation.
#[derive(Debug, Copy, Clone, PartialEq, Eq, Structural)]
pub enum Data {
    Int(i64),
    Float(u64),
}

/// A homogeneous pair of values popped for a binary operation: both
/// integers or both floats. No mixed variant exists; mixed-type pairs
/// are rejected with `Error::TypeMismatch`, never coerced.
#[derive(Debug, Copy, Clone, PartialEq, Eq, Structural)]
pub enum Pair {
    Int(i64, i64),
    Float(u64, u64),
}

/// The failures an operation can report. Every failure is returned as
/// data, never raised: the interpreter wraps it with the program counter
/// as it stood immediately after the faulting opcode.
///
/// `DivisionByZero` covers integer division or modulus by zero, and a
/// memory opcode reaching a zero-length memory array (whose address
/// reduction is a modulus by zero); both are surfaced as recoverable
/// errors rather than fatal conditions.
///
/// `StepLimit` reports that a run's opcode budget ran out before the
/// program terminated. Every run carries such a budget so that the
/// interpreter loop provably terminates; the default budget of
/// `u64::MAX` opcodes is beyond reach of any real execution.
#[derive(Debug, Copy, Clone, PartialEq, Eq, Structural)]
pub enum Error {
    StackUnderflow,
    TypeMismatch,
    InvalidInstruction,
    DivisionByZero,
    StepLimit,
}

impl Error {
    /// A short human-readable name for the error kind.
    pub fn to_string(&self) -> (r: &'static str)
        ensures
            *self == Error::StackUnderflow ==> r@ == "Stack Underflow"@,
            *self == Error::TypeMismatch ==> r@ == "Type Mismatch"@,
            *self == Error::InvalidInstruction ==> r@ == "Invalid Instruction"@,
            *self == Error::DivisionByZero ==> r@ == "Division By Zero"@,
            *self == Error::StepLimit ==> r@ == "Step Limit"@,
    {
        match self {
            Error::StackUnderflow => "Stack Underflow",
            Error::TypeMismatch => "Type Mismatch",
            Error::InvalidInstruction => "Invalid Instruction",
            Error::DivisionByZero => "Division By Zero",
            Error::StepLimit => "Step Limit",
        }
    }
}

} // verus!
