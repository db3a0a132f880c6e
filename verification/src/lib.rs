//! Disassembler front-end for 32-bit MIPS-family machine words.
//!
//! An instruction word is wrapped in [`Instruction`], which exposes pure
//! accessors for every named bit field of the encoding. The `decoder` module
//! classifies a word by its opcode fields and produces a structured
//! [`decoder::Decoded`] value (a mnemonic plus ordered operands), from which a
//! human-readable assembly line is rendered. The `parse` module reads a
//! numeric literal with an optional radix prefix, so that a caller can turn
//! command-line text into words to decode.

pub mod decoder;
pub mod instruction;
pub mod parse;
pub mod render;

pub use instruction::Instruction;
pub use instruction::RegisterIndex;
pub use parse::u32_from_str_prefix;
