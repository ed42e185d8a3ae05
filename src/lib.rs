//! An assembler for the vertex-unit (VU) processor: it turns a sequence of
//! tokens (mnemonics, operand names and integer literals) into the 32-bit
//! machine words that the processor executes.

pub mod encode;
pub mod token;
pub mod operand;
pub mod table;
pub mod program;
pub mod laws;

pub use encode::encode_instr;
pub use operand::{parse_output, parse_reg, parse_sub, parse_swizzle};
pub use program::{assemble, decode_instruction};
pub use table::{lookup_instruction, Shape};
pub use token::{AsmError, ErrorKind, Token};
