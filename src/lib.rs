//! Immediate operands of LoongArch64 instruction words: each field type turns
//! a logical integer into the bits an instruction word carries, and back.

pub mod field;
pub mod imms;
pub mod isa;
pub mod text;
