use vstd::prelude::*;

verus! {

/// The twelve addressing modes of the 6502. The mode of an instruction
/// determines how many operand bytes follow the opcode and how the operand
/// location is computed from them and from the index registers.
#[derive(Debug, Copy, Clone, PartialEq, Eq, Structural)]
pub enum OperandMode {
    Absolute,
    AbsoluteX,
    AbsoluteY,
    Accumulator,
    Immediate,
    Implied,
    Indirect,
    IndirectX,
    IndirectY,
    ZeroPage,
    ZeroPageX,
    ZeroPageY,
}

} // verus!
