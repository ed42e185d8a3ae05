//! Properties of whole programs and of encoded words.
use vstd::prelude::*;
use crate::encode::{dst_field, lemma_word_fields, opcode_field, src_field, END_WORD};
use crate::operand::register_of;
use crate::program::{assembled, instruction_at, program_words, MAX_WORDS};
use crate::table::{instruction_of, reg_reg_opcode, Shape};
use crate::token::{err_at, AsmError, ErrorKind, Token};

verus! {

/// A valid program of at most 63 instructions assembles to one word per
/// instruction followed by the `end` word `0x3F`.
pub proof fn lemma_short_program_is_terminated(toks: Seq<Token>, ws: Seq<u32>)
    requires
        program_words(toks) == Ok::<Seq<u32>, AsmError>(ws),
        ws.len() < MAX_WORDS,
    ensures
        assembled(toks) == Ok::<Seq<u32>, AsmError>(ws.push(END_WORD)),
        assembled(toks)->Ok_0.len() == ws.len() + 1,
        assembled(toks)->Ok_0.last() == 0x3Fu32,
{
}

/// A valid program of exactly 64 instructions assembles to exactly its 64
/// words, with nothing appended, whatever its last instruction is.
pub proof fn lemma_full_program_is_kept(toks: Seq<Token>, ws: Seq<u32>)
    requires
        program_words(toks) == Ok::<Seq<u32>, AsmError>(ws),
        ws.len() == MAX_WORDS,
    ensures
        assembled(toks) == Ok::<Seq<u32>, AsmError>(ws),
        assembled(toks)->Ok_0.len() == 64,
{
}

/// A valid program of 65 or more instructions fails to assemble with
/// `ProgramTooLarge`.
pub proof fn lemma_long_program_is_refused(toks: Seq<Token>, ws: Seq<u32>)
    requires
        program_words(toks) == Ok::<Seq<u32>, AsmError>(ws),
        ws.len() > MAX_WORDS,
    ensures
        assembled(toks) == Err::<Seq<u32>, AsmError>(err_at(ErrorKind::ProgramTooLarge, toks.len() as int)),
{
}

/// Every opcode of a two-register instruction fits in the six opcode bits.
pub proof fn lemma_reg_reg_opcode_bound(m: Seq<char>)
    ensures
        reg_reg_opcode(m) matches Some(op) ==> 3 <= op <= 24,
{
}

/// Decoding the opcode, dst and src fields of the word of a two-register
/// instruction gives back its opcode and its two register indices.
pub proof fn lemma_reg_reg_round_trip(toks: Seq<Token>, i: int, m: String, d: String, s: String)
    requires
        0 <= i,
        i + 2 < toks.len(),
        toks[i] == Token::Ident(m),
        toks[i + 1] == Token::Ident(d),
        toks[i + 2] == Token::Ident(s),
        reg_reg_opcode(m@) is Some,
        register_of(d@) is Some,
        register_of(s@) is Some,
    ensures
        instruction_at(toks, i) matches Ok((w, j)) && j == i + 3
            && opcode_field(w) == reg_reg_opcode(m@)->0
            && dst_field(w) == register_of(d@)->0
            && src_field(w) == register_of(s@)->0,
{
    let op = reg_reg_opcode(m@)->0;
    let dn = register_of(d@)->0;
    let sn = register_of(s@)->0;
    lemma_reg_reg_opcode_bound(m@);
    assert(instruction_of(m@) == Some((op, Shape::RegReg)));
    lemma_word_fields(op, dn, sn, 0, 0, 0, 0, 0);
    assert(op & 0x3F == op) by (bit_vector)
        requires op <= 24;
    assert(dn & 0xF == dn) by (bit_vector)
        requires dn <= 15;
    assert(sn & 0xF == sn) by (bit_vector)
        requires sn <= 15;
}

/// An assembled program holds 1 to 64 words, and its last word is the `end`
/// word whenever it holds fewer than 64.
pub proof fn lemma_assembled_shape(toks: Seq<Token>)
    ensures
        assembled(toks) matches Ok(p) ==> 1 <= p.len() <= 64 && (p.len() < 64 ==> p.last() == END_WORD),
{
}

} // verus!
