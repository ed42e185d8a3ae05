//! The fixed bit layout of one VU machine word.
//!
//! | field     | bits  |
//! |-----------|-------|
//! | opcode    | 0-5   |
//! | dst       | 6-9   |
//! | src       | 10-13 |
//! | swizzle.x | 14-15 |
//! | swizzle.y | 16-17 |
//! | swizzle.z | 18-19 |
//! | swizzle.w | 20-21 |
//! | mask      | 22-25 |
//!
//! Bits 26-31 are always zero.
use vstd::prelude::*;

verus! {

/// Opcode of the `end` instruction, which stops the processor.
pub const END_OPCODE: u32 = 63;

/// The word of the `end` instruction: opcode 63, every other field zero.
pub const END_WORD: u32 = 0x3F;

/// The word that packs the given fields, each masked to its width.
pub open spec fn word_of(op: u32, d: u32, s: u32, sx: u32, sy: u32, sz: u32, sw: u32, m: u32) -> u32 {
    (op & 0x3F) | ((d & 0xF) << 6) | ((s & 0xF) << 10) | ((sx & 3) << 14) | ((sy & 3) << 16)
        | ((sz & 3) << 18) | ((sw & 3) << 20) | ((m & 0xF) << 22)
}

/// Bits 0-5 of a word.
pub open spec fn opcode_field(w: u32) -> u32 {
    w & 0x3F
}

/// Bits 6-9 of a word.
pub open spec fn dst_field(w: u32) -> u32 {
    (w >> 6) & 0xF
}

/// Bits 10-13 of a word.
pub open spec fn src_field(w: u32) -> u32 {
    (w >> 10) & 0xF
}

/// The two bits of swizzle component `k` (0 to 3): bits `14 + 2k` and `15 + 2k`.
pub open spec fn swizzle_field(w: u32, k: u32) -> u32 {
    (w >> (14 + 2 * k) as u32) & 3
}

/// Bits 22-25 of a word.
pub open spec fn mask_field(w: u32) -> u32 {
    (w >> 22) & 0xF
}

/// Every field of `word_of` reads back as the value put in, masked to its
/// width, and bits 26-31 stay clear.
pub proof fn lemma_word_fields(op: u32, d: u32, s: u32, sx: u32, sy: u32, sz: u32, sw: u32, m: u32)
    ensures
        opcode_field(word_of(op, d, s, sx, sy, sz, sw, m)) == op & 0x3F,
        dst_field(word_of(op, d, s, sx, sy, sz, sw, m)) == d & 0xF,
        src_field(word_of(op, d, s, sx, sy, sz, sw, m)) == s & 0xF,
        swizzle_field(word_of(op, d, s, sx, sy, sz, sw, m), 0) == sx & 3,
        swizzle_field(word_of(op, d, s, sx, sy, sz, sw, m), 1) == sy & 3,
        swizzle_field(word_of(op, d, s, sx, sy, sz, sw, m), 2) == sz & 3,
        swizzle_field(word_of(op, d, s, sx, sy, sz, sw, m), 3) == sw & 3,
        mask_field(word_of(op, d, s, sx, sy, sz, sw, m)) == m & 0xF,
        word_of(op, d, s, sx, sy, sz, sw, m) >> 26 == 0,
{
    let w = word_of(op, d, s, sx, sy, sz, sw, m);
    assert(w & 0x3F == op & 0x3F) by (bit_vector)
        requires w == word_of(op, d, s, sx, sy, sz, sw, m);
    assert((w >> 6) & 0xF == d & 0xF) by (bit_vector)
        requires w == word_of(op, d, s, sx, sy, sz, sw, m);
    assert((w >> 10) & 0xF == s & 0xF) by (bit_vector)
        requires w == word_of(op, d, s, sx, sy, sz, sw, m);
    assert((w >> 14) & 3 == sx & 3) by (bit_vector)
        requires w == word_of(op, d, s, sx, sy, sz, sw, m);
    assert((w >> 16) & 3 == sy & 3) by (bit_vector)
        requires w == word_of(op, d, s, sx, sy, sz, sw, m);
    assert((w >> 18) & 3 == sz & 3) by (bit_vector)
        requires w == word_of(op, d, s, sx, sy, sz, sw, m);
    assert((w >> 20) & 3 == sw & 3) by (bit_vector)
        requires w == word_of(op, d, s, sx, sy, sz, sw, m);
    assert((w >> 22) & 0xF == m & 0xF) by (bit_vector)
        requires w == word_of(op, d, s, sx, sy, sz, sw, m);
    assert(w >> 26 == 0) by (bit_vector)
        requires w == word_of(op, d, s, sx, sy, sz, sw, m);
}

/// Packs the fields of one instruction into a machine word.
pub fn encode_instr(op: u32, d: u32, s: u32, sx: u32, sy: u32, sz: u32, sw: u32, m: u32) -> (r: u32)
    ensures
        r == word_of(op, d, s, sx, sy, sz, sw, m),
        opcode_field(r) == op & 0x3F,
        dst_field(r) == d & 0xF,
        src_field(r) == s & 0xF,
        swizzle_field(r, 0) == sx & 3,
        swizzle_field(r, 1) == sy & 3,
        swizzle_field(r, 2) == sz & 3,
        swizzle_field(r, 3) == sw & 3,
        mask_field(r) == m & 0xF,
        r >> 26 == 0,
{
    proof {
        lemma_word_fields(op, d, s, sx, sy, sz, sw, m);
    }
    (op & 0x3F) | ((d & 0xF) << 6) | ((s & 0xF) << 10) | ((sx & 3) << 14) | ((sy & 3) << 16)
        | ((sz & 3) << 18) | ((sw & 3) << 20) | ((m & 0xF) << 22)
}

/// The `end` word is the generic encoding of opcode 63 with every other
/// field zero.
pub proof fn lemma_end_word()
    ensures
        END_WORD == word_of(END_OPCODE, 0, 0, 0, 0, 0, 0, 0),
        opcode_field(END_WORD) == END_OPCODE,
{
    assert(0x3Fu32 == word_of(63, 0, 0, 0, 0, 0, 0, 0)) by (bit_vector);
    assert(0x3Fu32 & 0x3F == 63) by (bit_vector);
}

} // verus!
