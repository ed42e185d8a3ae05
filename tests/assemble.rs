use vu_assembler::{
    assemble, decode_instruction, encode_instr, lookup_instruction, parse_output, parse_reg,
    parse_sub, parse_swizzle, AsmError, ErrorKind, Shape, Token,
};

fn id(s: &str) -> Token {
    Token::Ident(s.to_string())
}

fn lit(v: u64) -> Token {
    Token::Int(v)
}

fn err(kind: ErrorKind, pos: usize) -> Result<Vec<u32>, AsmError> {
    Err(AsmError { kind, pos })
}

fn add_r0_r1(n: usize) -> Vec<Token> {
    let mut t = Vec::new();
    for _ in 0..n {
        t.push(id("add"));
        t.push(id("r0"));
        t.push(id("r1"));
    }
    t
}

const ADD_R0_R1: u32 = 3 | (0 << 6) | (1 << 10);

#[test]
fn ld_encodes_register_and_input_slot() {
    assert_eq!(assemble(&vec![id("ld"), id("r3"), lit(7)]), Ok(vec![(0 << 0) | (3 << 6) | (7 << 10), 0x3F]));
}

#[test]
fn ld_slot_eight_is_out_of_range() {
    assert_eq!(assemble(&vec![id("ld"), id("r0"), lit(8)]), err(ErrorKind::OperandOutOfRange, 2));
}

#[test]
fn st_encodes_output_and_register() {
    assert_eq!(assemble(&vec![id("st"), id("pos"), id("r2")]), Ok(vec![0x0000_0801, 0x3F]));
}

#[test]
fn shf_encodes_swizzle_and_mask() {
    let word = 23 | (1 << 6) | (2 << 10) | (0 << 14) | (1 << 16) | (2 << 18) | (3 << 20) | (10 << 22);
    assert_eq!(
        assemble(&vec![id("shf"), id("r1"), id("r2"), id("xyzw"), lit(0b1010)]),
        Ok(vec![word, 0x3F])
    );
}

#[test]
fn shf_rejects_unknown_swizzle_letter() {
    assert_eq!(
        assemble(&vec![id("shf"), id("r0"), id("r1"), id("xyzq"), lit(0)]),
        err(ErrorKind::InvalidSwizzle, 3)
    );
}

#[test]
fn empty_input_is_a_lone_end_word() {
    assert_eq!(assemble(&vec![]), Ok(vec![0x0000_003F]));
}

#[test]
fn unknown_mnemonic_is_refused() {
    assert_eq!(assemble(&vec![id("mystery"), id("r0"), id("r1")]), err(ErrorKind::UnknownOpcode, 0));
}

#[test]
fn short_program_gets_one_end_word() {
    for n in [1usize, 2, 30, 63] {
        let r = assemble(&add_r0_r1(n)).unwrap();
        assert_eq!(r.len(), n + 1);
        assert_eq!(r[n], 0x3F);
        assert!(r[..n].iter().all(|w| *w == ADD_R0_R1));
    }
}

#[test]
fn explicit_end_is_still_followed_by_end_word() {
    assert_eq!(
        assemble(&vec![id("add"), id("r0"), id("r1"), id("end")]),
        Ok(vec![ADD_R0_R1, 0x3F, 0x3F])
    );
}

#[test]
fn end_in_the_middle_does_not_stop_assembly() {
    assert_eq!(
        assemble(&vec![id("end"), id("add"), id("r0"), id("r1")]),
        Ok(vec![0x3F, ADD_R0_R1, 0x3F])
    );
}

#[test]
fn full_program_gets_no_end_word() {
    let r = assemble(&add_r0_r1(64)).unwrap();
    assert_eq!(r.len(), 64);
    assert!(r.iter().all(|w| *w == ADD_R0_R1));
}

#[test]
fn full_program_ending_in_end_is_kept() {
    let mut t = add_r0_r1(63);
    t.push(id("end"));
    let r = assemble(&t).unwrap();
    assert_eq!(r.len(), 64);
    assert_eq!(r[63], 0x3F);
}

#[test]
fn program_over_64_is_too_large() {
    for n in [65usize, 66, 100] {
        let t = add_r0_r1(n);
        assert_eq!(assemble(&t), err(ErrorKind::ProgramTooLarge, t.len()));
    }
}

#[test]
fn reg_reg_fields_round_trip() {
    let names = [
        ("add", 3), ("sub", 4), ("mul", 5), ("div", 6), ("dot", 7), ("abs", 8), ("sign", 9),
        ("sqrt", 10), ("pow", 11), ("exp", 12), ("log", 13), ("min", 14), ("max", 15),
        ("sin", 16), ("cos", 17), ("tan", 18), ("asin", 19), ("acos", 20), ("atan", 21),
        ("atan2", 22), ("mulm", 24),
    ];
    for (name, op) in names {
        for d in 0..16u32 {
            let s = 15 - d;
            let t = vec![id(name), id(&format!("r{}", d)), id(&format!("r{}", s))];
            let (w, next) = decode_instruction(&t, 0).unwrap();
            assert_eq!(next, 3);
            assert_eq!(w & 0x3F, op);
            assert_eq!((w >> 6) & 0xF, d);
            assert_eq!((w >> 10) & 0xF, s);
            assert_eq!(w >> 14, 0);
        }
    }
}

#[test]
fn ldc_encodes_constant_slot() {
    assert_eq!(assemble(&vec![id("ldc"), id("r15"), lit(15)]), Ok(vec![2 | (15 << 6) | (15 << 10), 0x3F]));
}

#[test]
fn ldc_slot_sixteen_is_out_of_range() {
    assert_eq!(assemble(&vec![id("ldc"), id("r1"), lit(16)]), err(ErrorKind::OperandOutOfRange, 2));
}

#[test]
fn shf_mask_sixteen_is_out_of_range() {
    assert_eq!(
        assemble(&vec![id("shf"), id("r0"), id("r1"), id("rgba"), lit(16)]),
        err(ErrorKind::OperandOutOfRange, 4)
    );
}

#[test]
fn huge_literal_is_out_of_range() {
    assert_eq!(assemble(&vec![id("ld"), id("r0"), lit(u64::MAX)]), err(ErrorKind::OperandOutOfRange, 2));
}

#[test]
fn bad_register_is_refused() {
    assert_eq!(assemble(&vec![id("add"), id("r16"), id("r1")]), err(ErrorKind::InvalidRegister, 1));
    assert_eq!(assemble(&vec![id("add"), id("r1"), id("r01")]), err(ErrorKind::InvalidRegister, 2));
    assert_eq!(assemble(&vec![id("add"), id("x1"), id("r1")]), err(ErrorKind::InvalidRegister, 1));
}

#[test]
fn bad_output_is_refused() {
    assert_eq!(assemble(&vec![id("st"), id("out"), id("r1")]), err(ErrorKind::InvalidOutput, 1));
}

#[test]
fn literal_for_register_is_wrong_type() {
    assert_eq!(assemble(&vec![id("add"), lit(1), id("r1")]), err(ErrorKind::InvalidOperandType, 1));
}

#[test]
fn name_for_literal_is_wrong_type() {
    assert_eq!(assemble(&vec![id("ld"), id("r1"), id("r2")]), err(ErrorKind::InvalidOperandType, 2));
    assert_eq!(assemble(&vec![id("ld"), id("r1"), Token::Other]), err(ErrorKind::InvalidOperandType, 2));
}

#[test]
fn literal_for_mnemonic_is_wrong_type() {
    assert_eq!(assemble(&vec![lit(3)]), err(ErrorKind::InvalidOperandType, 0));
}

#[test]
fn missing_operand_is_unexpected_end() {
    assert_eq!(assemble(&vec![id("add"), id("r0")]), err(ErrorKind::UnexpectedEndOfInput, 2));
    assert_eq!(assemble(&vec![id("shf"), id("r0"), id("r1")]), err(ErrorKind::UnexpectedEndOfInput, 3));
}

#[test]
fn first_error_wins() {
    assert_eq!(
        assemble(&vec![id("add"), id("r0"), id("r1"), id("nop"), id("add"), id("q"), id("r1")]),
        err(ErrorKind::UnknownOpcode, 3)
    );
}

#[test]
fn encode_instr_places_every_field() {
    assert_eq!(encode_instr(0, 3, 7, 0, 0, 0, 0, 0), 0x0000_1CC0);
    assert_eq!(encode_instr(63, 0, 0, 0, 0, 0, 0, 0), 0x3F);
    assert_eq!(encode_instr(0xFF, 0xFF, 0xFF, 7, 7, 7, 7, 0xFF), 0x03FF_FFFF);
    assert_eq!(encode_instr(0, 0, 0, 0, 0, 0, 0, 1), 1 << 22);
    assert_eq!(encode_instr(0, 0, 0, 0, 0, 0, 3, 0), 3 << 20);
}

#[test]
fn register_names_decode() {
    for n in 0..16u32 {
        assert_eq!(parse_reg(&format!("r{}", n)), Ok(n));
    }
    assert_eq!(parse_reg(&"r".to_string()), Err(ErrorKind::InvalidRegister));
    assert_eq!(parse_reg(&"R1".to_string()), Err(ErrorKind::InvalidRegister));
}

#[test]
fn output_names_decode() {
    assert_eq!(parse_output(&"pos".to_string()), Ok(0));
    assert_eq!(parse_output(&"tex".to_string()), Ok(1));
    assert_eq!(parse_output(&"col".to_string()), Ok(2));
    assert_eq!(parse_output(&"ocol".to_string()), Ok(3));
    assert_eq!(parse_output(&"Pos".to_string()), Err(ErrorKind::InvalidOutput));
}

#[test]
fn swizzle_letters_decode() {
    assert_eq!(parse_sub('x'), Ok(0));
    assert_eq!(parse_sub('g'), Ok(1));
    assert_eq!(parse_sub('b'), Ok(2));
    assert_eq!(parse_sub('a'), Ok(3));
    assert_eq!(parse_sub('X'), Err(ErrorKind::InvalidSwizzle));
    assert_eq!(parse_swizzle(&"xgba".to_string()), Ok((0, 1, 2, 3)));
    assert_eq!(parse_swizzle(&"wzyx".to_string()), Ok((3, 2, 1, 0)));
    assert_eq!(parse_swizzle(&"xyz".to_string()), Err(ErrorKind::InvalidSwizzle));
    assert_eq!(parse_swizzle(&"xyzwx".to_string()), Err(ErrorKind::InvalidSwizzle));
    assert_eq!(parse_swizzle(&"xyé".to_string()), Err(ErrorKind::InvalidSwizzle));
}

#[test]
fn table_lookup() {
    assert_eq!(lookup_instruction(&"ld".to_string()), Some((0, Shape::RegFromInputSlot)));
    assert_eq!(lookup_instruction(&"st".to_string()), Some((1, Shape::OutputFromReg)));
    assert_eq!(lookup_instruction(&"ldc".to_string()), Some((2, Shape::RegFromConstSlot)));
    assert_eq!(lookup_instruction(&"shf".to_string()), Some((23, Shape::RegRegSwizzleMask)));
    assert_eq!(lookup_instruction(&"mulm".to_string()), Some((24, Shape::RegReg)));
    assert_eq!(lookup_instruction(&"end".to_string()), Some((63, Shape::NoOperand)));
    assert_eq!(lookup_instruction(&"ADD".to_string()), None);
}
