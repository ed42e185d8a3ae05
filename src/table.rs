//! The instruction set: each mnemonic with its opcode and operand shape.
use vstd::prelude::*;
use crate::operand::is_name;

verus! {

/// The operands that an instruction takes, in order.
#[derive(Clone, Copy, Debug, PartialEq, Eq, Structural)]
pub enum Shape {
    /// No operand (`end`).
    NoOperand,
    /// A destination register and an input slot literal below 8 (`ld`).
    RegFromInputSlot,
    /// An output slot and a source register (`st`).
    OutputFromReg,
    /// A destination register and a constant slot literal below 16 (`ldc`).
    RegFromConstSlot,
    /// A destination register and a source register.
    RegReg,
    /// Two registers, a swizzle and a 4-bit mask literal (`shf`).
    RegRegSwizzleMask,
}

/// The opcode of a mnemonic whose operands are two registers.
pub open spec fn reg_reg_opcode(m: Seq<char>) -> Option<u32> {
    if m == "add"@ {
        Some(3)
    } else if m == "sub"@ {
        Some(4)
    } else if m == "mul"@ {
        Some(5)
    } else if m == "div"@ {
        Some(6)
    } else if m == "dot"@ {
        Some(7)
    } else if m == "abs"@ {
        Some(8)
    } else if m == "sign"@ {
        Some(9)
    } else if m == "sqrt"@ {
        Some(10)
    } else if m == "pow"@ {
        Some(11)
    } else if m == "exp"@ {
        Some(12)
    } else if m == "log"@ {
        Some(13)
    } else if m == "min"@ {
        Some(14)
    } else if m == "max"@ {
        Some(15)
    } else if m == "sin"@ {
        Some(16)
    } else if m == "cos"@ {
        Some(17)
    } else if m == "tan"@ {
        Some(18)
    } else if m == "asin"@ {
        Some(19)
    } else if m == "acos"@ {
        Some(20)
    } else if m == "atan"@ {
        Some(21)
    } else if m == "atan2"@ {
        Some(22)
    } else if m == "mulm"@ {
        Some(24)
    } else {
        None
    }
}

/// The opcode and operand shape of the instruction that mnemonic `m` names.
pub open spec fn instruction_of(m: Seq<char>) -> Option<(u32, Shape)> {
    match reg_reg_opcode(m) {
        Some(op) => Some((op, Shape::RegReg)),
        None => if m == "ld"@ {
            Some((0, Shape::RegFromInputSlot))
        } else if m == "st"@ {
            Some((1, Shape::OutputFromReg))
        } else if m == "ldc"@ {
            Some((2, Shape::RegFromConstSlot))
        } else if m == "shf"@ {
            Some((23, Shape::RegRegSwizzleMask))
        } else if m == "end"@ {
            Some((63, Shape::NoOperand))
        } else {
            None
        },
    }
}

fn lookup_reg_reg(m: &String) -> (r: Option<u32>)
    ensures
        r == reg_reg_opcode(m@),
{
    if is_name(m, "add") {
        Some(3)
    } else if is_name(m, "sub") {
        Some(4)
    } else if is_name(m, "mul") {
        Some(5)
    } else if is_name(m, "div") {
        Some(6)
    } else if is_name(m, "dot") {
        Some(7)
    } else if is_name(m, "abs") {
        Some(8)
    } else if is_name(m, "sign") {
        Some(9)
    } else if is_name(m, "sqrt") {
        Some(10)
    } else if is_name(m, "pow") {
        Some(11)
    } else if is_name(m, "exp") {
        Some(12)
    } else if is_name(m, "log") {
        Some(13)
    } else if is_name(m, "min") {
        Some(14)
    } else if is_name(m, "max") {
        Some(15)
    } else if is_name(m, "sin") {
        Some(16)
    } else if is_name(m, "cos") {
        Some(17)
    } else if is_name(m, "tan") {
        Some(18)
    } else if is_name(m, "asin") {
        Some(19)
    } else if is_name(m, "acos") {
        Some(20)
    } else if is_name(m, "atan") {
        Some(21)
    } else if is_name(m, "atan2") {
        Some(22)
    } else if is_name(m, "mulm") {
        Some(24)
    } else {
        None
    }
}

/// Looks a mnemonic up in the instruction set.
pub fn lookup_instruction(m: &String) -> (r: Option<(u32, Shape)>)
    ensures
        r == instruction_of(m@),
{
    match lookup_reg_reg(m) {
        Some(op) => Some((op, Shape::RegReg)),
        None => if is_name(m, "ld") {
            Some((0, Shape::RegFromInputSlot))
        } else if is_name(m, "st") {
            Some((1, Shape::OutputFromReg))
        } else if is_name(m, "ldc") {
            Some((2, Shape::RegFromConstSlot))
        } else if is_name(m, "shf") {
            Some((23, Shape::RegRegSwizzleMask))
        } else if is_name(m, "end") {
            Some((63, Shape::NoOperand))
        } else {
            None
        },
    }
}

} // verus!
