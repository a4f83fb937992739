use crate::instruction::Instruction;
use vstd::prelude::*;

verus! {

/// An operand of one of the four widths the processor works on.
#[derive(Debug, Clone, Copy)]
pub enum Value {
    Byte(u8),
    Word(u16),
    DWord(u32),
    QWord(u64),
}

/// A decoded instruction together with the two operands it applies to.
#[derive(Debug, Clone, Copy)]
pub struct AluCommand {
    instruction: Instruction,
    src_val: Value,
    dst_val: Value,
}

} // verus!
