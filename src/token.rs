//! The assembler's input tokens and its errors.
use vstd::prelude::*;

verus! {

/// One lexical unit of assembly source.
#[derive(Clone, Debug, PartialEq, Eq)]
pub enum Token {
    /// A name: a mnemonic, a register, an output slot or a swizzle.
    Ident(String),
    /// A non-negative integer literal.
    Int(u64),
    /// Anything else the source held where a name or an integer could stand
    /// (another kind of literal, a punctuation mark).
    Other,
}

/// What went wrong during assembly.
#[derive(Clone, Copy, Debug, PartialEq, Eq, Structural)]
pub enum ErrorKind {
    /// The mnemonic names no instruction.
    UnknownOpcode,
    /// A register was expected and the name is not one of `r0`..`r15`.
    InvalidRegister,
    /// An output slot was expected and the name is not one of `pos`, `tex`, `col`, `ocol`.
    InvalidOutput,
    /// A swizzle was expected and the name is not four of `x y z w r g b a`.
    InvalidSwizzle,
    /// A name stands where an integer is expected, or the other way round.
    InvalidOperandType,
    /// An integer operand is at or above its bound.
    OperandOutOfRange,
    /// The program holds more than 64 instructions.
    ProgramTooLarge,
    /// The tokens end in the middle of an instruction.
    UnexpectedEndOfInput,
}

/// An assembly error and the index of the token it was found at (the number
/// of tokens, where the input ended too early or the program is too large).
#[derive(Clone, Copy, Debug, PartialEq, Eq, Structural)]
pub struct AsmError {
    pub kind: ErrorKind,
    pub pos: usize,
}

/// The error of kind `kind` at token `pos`.
pub open spec fn err_at(kind: ErrorKind, pos: int) -> AsmError {
    AsmError { kind, pos: pos as usize }
}

impl AsmError {
    /// Builds the error of kind `kind` at token `pos`.
    pub fn new(kind: ErrorKind, pos: usize) -> (r: AsmError)
        ensures
            r == err_at(kind, pos as int),
    {
        AsmError { kind, pos }
    }
}

} // verus!
