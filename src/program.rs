//! Assembly of a whole program: one word per instruction, in token order,
//! closed by an `end` word when there is room for one.
use vstd::prelude::*;
use crate::encode::{encode_instr, word_of, END_WORD};
use crate::operand::{output_of, parse_output, parse_reg, parse_swizzle, register_of, swizzle_of};
use crate::table::{instruction_of, lookup_instruction, Shape};
use crate::token::{err_at, AsmError, ErrorKind, Token};

verus! {

/// The most words that a program may hold.
pub const MAX_WORDS: usize = 64;

/// The bound of an input slot literal (`ld`).
pub const MAX_INPUT_SLOTS: u64 = 8;

/// The bound of a constant slot literal (`ldc`), and of a mask (`shf`).
pub const MAX_CONSTANT_SLOTS: u64 = 16;

/// The register that token `i` names.
pub open spec fn reg_at(toks: Seq<Token>, i: int) -> Result<u32, AsmError> {
    if i < 0 || i >= toks.len() {
        Err(err_at(ErrorKind::UnexpectedEndOfInput, i))
    } else {
        match toks[i] {
            Token::Ident(s) => match register_of(s@) {
                Some(n) => Ok(n),
                None => Err(err_at(ErrorKind::InvalidRegister, i)),
            },
            _ => Err(err_at(ErrorKind::InvalidOperandType, i)),
        }
    }
}

/// The output slot that token `i` names.
pub open spec fn output_at(toks: Seq<Token>, i: int) -> Result<u32, AsmError> {
    if i < 0 || i >= toks.len() {
        Err(err_at(ErrorKind::UnexpectedEndOfInput, i))
    } else {
        match toks[i] {
            Token::Ident(s) => match output_of(s@) {
                Some(n) => Ok(n),
                None => Err(err_at(ErrorKind::InvalidOutput, i)),
            },
            _ => Err(err_at(ErrorKind::InvalidOperandType, i)),
        }
    }
}

/// The swizzle that token `i` names.
pub open spec fn swizzle_at(toks: Seq<Token>, i: int) -> Result<(u32, u32, u32, u32), AsmError> {
    if i < 0 || i >= toks.len() {
        Err(err_at(ErrorKind::UnexpectedEndOfInput, i))
    } else {
        match toks[i] {
            Token::Ident(s) => match swizzle_of(s@) {
                Some(t) => Ok(t),
                None => Err(err_at(ErrorKind::InvalidSwizzle, i)),
            },
            _ => Err(err_at(ErrorKind::InvalidOperandType, i)),
        }
    }
}

/// The integer literal at token `i`, which must lie below `bound`.
pub open spec fn literal_at(toks: Seq<Token>, i: int, bound: u64) -> Result<u32, AsmError> {
    if i < 0 || i >= toks.len() {
        Err(err_at(ErrorKind::UnexpectedEndOfInput, i))
    } else {
        match toks[i] {
            Token::Int(v) => if v < bound {
                Ok(v as u32)
            } else {
                Err(err_at(ErrorKind::OperandOutOfRange, i))
            },
            _ => Err(err_at(ErrorKind::InvalidOperandType, i)),
        }
    }
}

/// The word of an instruction with opcode `op` and operand shape `shape`
/// whose operands start at token `i`, and the index of the token after them.
pub open spec fn operands_at(toks: Seq<Token>, i: int, op: u32, shape: Shape) -> Result<(u32, int), AsmError> {
    match shape {
        Shape::NoOperand => Ok((END_WORD, i)),
        Shape::RegFromInputSlot => match (reg_at(toks, i), literal_at(toks, i + 1, MAX_INPUT_SLOTS)) {
            (Err(e), _) => Err(e),
            (Ok(_), Err(e)) => Err(e),
            (Ok(d), Ok(s)) => Ok((word_of(op, d, s, 0, 0, 0, 0, 0), i + 2)),
        },
        Shape::OutputFromReg => match (output_at(toks, i), reg_at(toks, i + 1)) {
            (Err(e), _) => Err(e),
            (Ok(_), Err(e)) => Err(e),
            (Ok(d), Ok(s)) => Ok((word_of(op, d, s, 0, 0, 0, 0, 0), i + 2)),
        },
        Shape::RegFromConstSlot => match (reg_at(toks, i), literal_at(toks, i + 1, MAX_CONSTANT_SLOTS)) {
            (Err(e), _) => Err(e),
            (Ok(_), Err(e)) => Err(e),
            (Ok(d), Ok(s)) => Ok((word_of(op, d, s, 0, 0, 0, 0, 0), i + 2)),
        },
        Shape::RegReg => match (reg_at(toks, i), reg_at(toks, i + 1)) {
            (Err(e), _) => Err(e),
            (Ok(_), Err(e)) => Err(e),
            (Ok(d), Ok(s)) => Ok((word_of(op, d, s, 0, 0, 0, 0, 0), i + 2)),
        },
        Shape::RegRegSwizzleMask => match (
            reg_at(toks, i),
            reg_at(toks, i + 1),
            swizzle_at(toks, i + 2),
            literal_at(toks, i + 3, MAX_CONSTANT_SLOTS),
        ) {
            (Err(e), _, _, _) => Err(e),
            (Ok(_), Err(e), _, _) => Err(e),
            (Ok(_), Ok(_), Err(e), _) => Err(e),
            (Ok(_), Ok(_), Ok(_), Err(e)) => Err(e),
            (Ok(d), Ok(s), Ok(t), Ok(m)) => Ok((word_of(op, d, s, t.0, t.1, t.2, t.3, m), i + 4)),
        },
    }
}

/// The word of the instruction that starts at token `i`, and the index of
/// the token after it.
pub open spec fn instruction_at(toks: Seq<Token>, i: int) -> Result<(u32, int), AsmError> {
    if i < 0 || i >= toks.len() {
        Err(err_at(ErrorKind::UnexpectedEndOfInput, i))
    } else {
        match toks[i] {
            Token::Ident(m) => match instruction_of(m@) {
                Some((op, shape)) => operands_at(toks, i + 1, op, shape),
                None => Err(err_at(ErrorKind::UnknownOpcode, i)),
            },
            _ => Err(err_at(ErrorKind::InvalidOperandType, i)),
        }
    }
}

/// The words of the instructions from token `i` to the end, after those in
/// `acc`; or the first error among them.
pub open spec fn words_from(toks: Seq<Token>, i: int, acc: Seq<u32>) -> Result<Seq<u32>, AsmError>
    decreases toks.len() - i,
{
    if i < 0 || i >= toks.len() {
        Ok(acc)
    } else {
        match instruction_at(toks, i) {
            Err(e) => Err(e),
            Ok((w, j)) => if i < j <= toks.len() {
                words_from(toks, j, acc.push(w))
            } else {
                Ok(acc)
            },
        }
    }
}

/// One word for each instruction of `toks`, in order, or the first error.
pub open spec fn program_words(toks: Seq<Token>) -> Result<Seq<u32>, AsmError> {
    words_from(toks, 0, seq![])
}

/// The assembled program: the instructions' words, then an `end` word if
/// there are fewer than 64 of them; an error if there are more than 64.
pub open spec fn assembled(toks: Seq<Token>) -> Result<Seq<u32>, AsmError> {
    match program_words(toks) {
        Err(e) => Err(e),
        Ok(ws) => if ws.len() < MAX_WORDS {
            Ok(ws.push(END_WORD))
        } else if ws.len() == MAX_WORDS {
            Ok(ws)
        } else {
            Err(err_at(ErrorKind::ProgramTooLarge, toks.len() as int))
        },
    }
}

/// The words that a result holds, as a sequence.
pub open spec fn words_view(r: Result<Vec<u32>, AsmError>) -> Result<Seq<u32>, AsmError> {
    match r {
        Ok(v) => Ok(v@),
        Err(e) => Err(e),
    }
}

/// A decoded word and next index, with the index as an integer.
pub open spec fn step_view(r: Result<(u32, usize), AsmError>) -> Result<(u32, int), AsmError> {
    match r {
        Ok((w, j)) => Ok((w, j as int)),
        Err(e) => Err(e),
    }
}

fn reg_operand(tokens: &Vec<Token>, i: usize) -> (r: Result<u32, AsmError>)
    ensures
        r == reg_at(tokens@, i as int),
{
    if i >= tokens.len() {
        return Err(AsmError::new(ErrorKind::UnexpectedEndOfInput, i));
    }
    match &tokens[i] {
        Token::Ident(s) => match parse_reg(s) {
            Ok(n) => Ok(n),
            Err(k) => Err(AsmError::new(k, i)),
        },
        _ => Err(AsmError::new(ErrorKind::InvalidOperandType, i)),
    }
}

fn output_operand(tokens: &Vec<Token>, i: usize) -> (r: Result<u32, AsmError>)
    ensures
        r == output_at(tokens@, i as int),
{
    if i >= tokens.len() {
        return Err(AsmError::new(ErrorKind::UnexpectedEndOfInput, i));
    }
    match &tokens[i] {
        Token::Ident(s) => match parse_output(s) {
            Ok(n) => Ok(n),
            Err(k) => Err(AsmError::new(k, i)),
        },
        _ => Err(AsmError::new(ErrorKind::InvalidOperandType, i)),
    }
}

fn swizzle_operand(tokens: &Vec<Token>, i: usize) -> (r: Result<(u32, u32, u32, u32), AsmError>)
    ensures
        r == swizzle_at(tokens@, i as int),
{
    if i >= tokens.len() {
        return Err(AsmError::new(ErrorKind::UnexpectedEndOfInput, i));
    }
    match &tokens[i] {
        Token::Ident(s) => match parse_swizzle(s) {
            Ok(t) => Ok(t),
            Err(k) => Err(AsmError::new(k, i)),
        },
        _ => Err(AsmError::new(ErrorKind::InvalidOperandType, i)),
    }
}

fn literal_operand(tokens: &Vec<Token>, i: usize, bound: u64) -> (r: Result<u32, AsmError>)
    requires
        bound <= MAX_CONSTANT_SLOTS,
    ensures
        r == literal_at(tokens@, i as int, bound),
{
    if i >= tokens.len() {
        return Err(AsmError::new(ErrorKind::UnexpectedEndOfInput, i));
    }
    match &tokens[i] {
        Token::Int(v) => if *v < bound {
            Ok(*v as u32)
        } else {
            Err(AsmError::new(ErrorKind::OperandOutOfRange, i))
        },
        _ => Err(AsmError::new(ErrorKind::InvalidOperandType, i)),
    }
}

fn decode_operands(tokens: &Vec<Token>, i: usize, op: u32, shape: Shape) -> (r: Result<(u32, usize), AsmError>)
    requires
        i <= tokens.len(),
    ensures
        step_view(r) == operands_at(tokens@, i as int, op, shape),
        r matches Ok((_, j)) ==> i <= j <= tokens.len(),
{
    match shape {
        Shape::NoOperand => Ok((END_WORD, i)),
        Shape::RegFromInputSlot => {
            let d = match reg_operand(tokens, i) {
                Ok(d) => d,
                Err(e) => return Err(e),
            };
            let s = match literal_operand(tokens, i + 1, MAX_INPUT_SLOTS) {
                Ok(s) => s,
                Err(e) => return Err(e),
            };
            Ok((encode_instr(op, d, s, 0, 0, 0, 0, 0), i + 2))
        },
        Shape::OutputFromReg => {
            let d = match output_operand(tokens, i) {
                Ok(d) => d,
                Err(e) => return Err(e),
            };
            let s = match reg_operand(tokens, i + 1) {
                Ok(s) => s,
                Err(e) => return Err(e),
            };
            Ok((encode_instr(op, d, s, 0, 0, 0, 0, 0), i + 2))
        },
        Shape::RegFromConstSlot => {
            let d = match reg_operand(tokens, i) {
                Ok(d) => d,
                Err(e) => return Err(e),
            };
            let s = match literal_operand(tokens, i + 1, MAX_CONSTANT_SLOTS) {
                Ok(s) => s,
                Err(e) => return Err(e),
            };
            Ok((encode_instr(op, d, s, 0, 0, 0, 0, 0), i + 2))
        },
        Shape::RegReg => {
            let d = match reg_operand(tokens, i) {
                Ok(d) => d,
                Err(e) => return Err(e),
            };
            let s = match reg_operand(tokens, i + 1) {
                Ok(s) => s,
                Err(e) => return Err(e),
            };
            Ok((encode_instr(op, d, s, 0, 0, 0, 0, 0), i + 2))
        },
        Shape::RegRegSwizzleMask => {
            let d = match reg_operand(tokens, i) {
                Ok(d) => d,
                Err(e) => return Err(e),
            };
            let s = match reg_operand(tokens, i + 1) {
                Ok(s) => s,
                Err(e) => return Err(e),
            };
            let t = match swizzle_operand(tokens, i + 2) {
                Ok(t) => t,
                Err(e) => return Err(e),
            };
            let m = match literal_operand(tokens, i + 3, MAX_CONSTANT_SLOTS) {
                Ok(m) => m,
                Err(e) => return Err(e),
            };
            Ok((encode_instr(op, d, s, t.0, t.1, t.2, t.3, m), i + 4))
        },
    }
}

/// Decodes and encodes the instruction that starts at token `i`; on success
/// also returns the index of the token after it.
pub fn decode_instruction(tokens: &Vec<Token>, i: usize) -> (r: Result<(u32, usize), AsmError>)
    requires
        i < tokens.len(),
    ensures
        step_view(r) == instruction_at(tokens@, i as int),
        r matches Ok((_, j)) ==> i < j <= tokens.len(),
{
    match &tokens[i] {
        Token::Ident(m) => match lookup_instruction(m) {
            Some((op, shape)) => decode_operands(tokens, i + 1, op, shape),
            None => Err(AsmError::new(ErrorKind::UnknownOpcode, i)),
        },
        _ => Err(AsmError::new(ErrorKind::InvalidOperandType, i)),
    }
}

/// Assembles a program: each instruction in token order becomes one word,
/// and an `end` word follows when there are fewer than 64 of them. Stops at
/// the first error.
pub fn assemble(tokens: &Vec<Token>) -> (r: Result<Vec<u32>, AsmError>)
    ensures
        words_view(r) == assembled(tokens@),
{
    let mut instr: Vec<u32> = Vec::new();
    let mut i: usize = 0;
    while i < tokens.len()
        invariant
            i <= tokens.len(),
            program_words(tokens@) == words_from(tokens@, i as int, instr@),
        decreases tokens.len() - i,
    {
        match decode_instruction(tokens, i) {
            Ok((w, j)) => {
                instr.push(w);
                i = j;
            },
            Err(e) => {
                return Err(e);
            },
        }
    }
    if instr.len() < MAX_WORDS {
        instr.push(END_WORD);
        Ok(instr)
    } else if instr.len() > MAX_WORDS {
        Err(AsmError::new(ErrorKind::ProgramTooLarge, tokens.len()))
    } else {
        Ok(instr)
    }
}

} // verus!
