pub mod operand_mode;
pub mod operation;

use vstd::prelude::*;

use operand_mode::OperandMode;
use operation::Operation;

verus! {

/// One decoded opcode: an addressing mode paired with an operation.
#[derive(Debug, Copy, Clone, PartialEq, Eq, Structural)]
pub struct Instruction(pub OperandMode, pub Operation);

/// The base cycle cost of an instruction, and whether crossing a page
/// boundary during operand resolution costs one further cycle.
#[derive(Debug, Copy, Clone, PartialEq, Eq, Structural)]
pub struct CycleCount {
    pub cycles: u8,
    pub page_boundary_costs_extra: bool,
}

/// The fetched opcode byte has no entry in the opcode table.
#[derive(Debug, Copy, Clone, PartialEq, Eq, Structural)]
pub enum DecodeError {
    UnknownOpcode,
}

/// The addressing mode and operation pair is not one the 6502 encodes.
#[derive(Debug, Copy, Clone, PartialEq, Eq, Structural)]
pub enum EncodeError {
    UnknownInstruction,
}

/// No cycle timing is recorded for the instruction.
#[derive(Debug, Copy, Clone, PartialEq, Eq, Structural)]
pub enum CycleError {
    UnknownInstruction,
}

/// The canonical 6502 opcode table: the instruction each of the 151
/// documented opcode bytes decodes to. Every other byte value is an
/// illegal opcode and decodes to nothing.
pub open spec fn spec_decode(bytecode: u8) -> Option<Instruction> {
    match bytecode {
        0x69 => Some(Instruction(OperandMode::Immediate, Operation::ADC)),
        0x65 => Some(Instruction(OperandMode::ZeroPage, Operation::ADC)),
        0x75 => Some(Instruction(OperandMode::ZeroPageX, Operation::ADC)),
        0x6D => Some(Instruction(OperandMode::Absolute, Operation::ADC)),
        0x7D => Some(Instruction(OperandMode::AbsoluteX, Operation::ADC)),
        0x79 => Some(Instruction(OperandMode::AbsoluteY, Operation::ADC)),
        0x61 => Some(Instruction(OperandMode::IndirectX, Operation::ADC)),
        0x71 => Some(Instruction(OperandMode::IndirectY, Operation::ADC)),
        0x29 => Some(Instruction(OperandMode::Immediate, Operation::AND)),
        0x25 => Some(Instruction(OperandMode::ZeroPage, Operation::AND)),
        0x35 => Some(Instruction(OperandMode::ZeroPageX, Operation::AND)),
        0x2D => Some(Instruction(OperandMode::Absolute, Operation::AND)),
        0x3D => Some(Instruction(OperandMode::AbsoluteX, Operation::AND)),
        0x39 => Some(Instruction(OperandMode::AbsoluteY, Operation::AND)),
        0x21 => Some(Instruction(OperandMode::IndirectX, Operation::AND)),
        0x31 => Some(Instruction(OperandMode::IndirectY, Operation::AND)),
        0x0A => Some(Instruction(OperandMode::Accumulator, Operation::ASL)),
        0x06 => Some(Instruction(OperandMode::ZeroPage, Operation::ASL)),
        0x16 => Some(Instruction(OperandMode::ZeroPageX, Operation::ASL)),
        0x0E => Some(Instruction(OperandMode::Absolute, Operation::ASL)),
        0x1E => Some(Instruction(OperandMode::AbsoluteX, Operation::ASL)),
        0x90 => Some(Instruction(OperandMode::Immediate, Operation::BCC)),
        0xB0 => Some(Instruction(OperandMode::Immediate, Operation::BCS)),
        0xF0 => Some(Instruction(OperandMode::Immediate, Operation::BEQ)),
        0x24 => Some(Instruction(OperandMode::ZeroPage, Operation::BIT)),
        0x2C => Some(Instruction(OperandMode::Absolute, Operation::BIT)),
        0x30 => Some(Instruction(OperandMode::Immediate, Operation::BMI)),
        0xD0 => Some(Instruction(OperandMode::Immediate, Operation::BNE)),
        0x10 => Some(Instruction(OperandMode::Immediate, Operation::BPL)),
        0x00 => Some(Instruction(OperandMode::Implied, Operation::BRK)),
        0x50 => Some(Instruction(OperandMode::Immediate, Operation::BVC)),
        0x70 => Some(Instruction(OperandMode::Immediate, Operation::BVS)),
        0x18 => Some(Instruction(OperandMode::Implied, Operation::CLC)),
        0xD8 => Some(Instruction(OperandMode::Implied, Operation::CLD)),
        0x58 => Some(Instruction(OperandMode::Implied, Operation::CLI)),
        0xB8 => Some(Instruction(OperandMode::Implied, Operation::CLV)),
        0xC9 => Some(Instruction(OperandMode::Immediate, Operation::CMP)),
        0xC5 => Some(Instruction(OperandMode::ZeroPage, Operation::CMP)),
        0xD5 => Some(Instruction(OperandMode::ZeroPageX, Operation::CMP)),
        0xCD => Some(Instruction(OperandMode::Absolute, Operation::CMP)),
        0xDD => Some(Instruction(OperandMode::AbsoluteX, Operation::CMP)),
        0xD9 => Some(Instruction(OperandMode::AbsoluteY, Operation::CMP)),
        0xC1 => Some(Instruction(OperandMode::IndirectX, Operation::CMP)),
        0xD1 => Some(Instruction(OperandMode::IndirectY, Operation::CMP)),
        0xE0 => Some(Instruction(OperandMode::Immediate, Operation::CPX)),
        0xE4 => Some(Instruction(OperandMode::ZeroPage, Operation::CPX)),
        0xEC => Some(Instruction(OperandMode::Absolute, Operation::CPX)),
        0xC0 => Some(Instruction(OperandMode::Immediate, Operation::CPY)),
        0xC4 => Some(Instruction(OperandMode::ZeroPage, Operation::CPY)),
        0xCC => Some(Instruction(OperandMode::Absolute, Operation::CPY)),
        0xC6 => Some(Instruction(OperandMode::ZeroPage, Operation::DEC)),
        0xD6 => Some(Instruction(OperandMode::ZeroPageX, Operation::DEC)),
        0xCE => Some(Instruction(OperandMode::Absolute, Operation::DEC)),
        0xDE => Some(Instruction(OperandMode::AbsoluteX, Operation::DEC)),
        0xCA => Some(Instruction(OperandMode::Implied, Operation::DEX)),
        0x88 => Some(Instruction(OperandMode::Implied, Operation::DEY)),
        0x49 => Some(Instruction(OperandMode::Immediate, Operation::EOR)),
        0x45 => Some(Instruction(OperandMode::ZeroPage, Operation::EOR)),
        0x55 => Some(Instruction(OperandMode::ZeroPageX, Operation::EOR)),
        0x4D => Some(Instruction(OperandMode::Absolute, Operation::EOR)),
        0x5D => Some(Instruction(OperandMode::AbsoluteX, Operation::EOR)),
        0x59 => Some(Instruction(OperandMode::AbsoluteY, Operation::EOR)),
        0x41 => Some(Instruction(OperandMode::IndirectX, Operation::EOR)),
        0x51 => Some(Instruction(OperandMode::IndirectY, Operation::EOR)),
        0xE6 => Some(Instruction(OperandMode::ZeroPage, Operation::INC)),
        0xF6 => Some(Instruction(OperandMode::ZeroPageX, Operation::INC)),
        0xEE => Some(Instruction(OperandMode::Absolute, Operation::INC)),
        0xFE => Some(Instruction(OperandMode::AbsoluteX, Operation::INC)),
        0xE8 => Some(Instruction(OperandMode::Implied, Operation::INX)),
        0xC8 => Some(Instruction(OperandMode::Implied, Operation::INY)),
        0x4C => Some(Instruction(OperandMode::Absolute, Operation::JMP)),
        0x6C => Some(Instruction(OperandMode::Indirect, Operation::JMP)),
        0x20 => Some(Instruction(OperandMode::Absolute, Operation::JSR)),
        0xA9 => Some(Instruction(OperandMode::Immediate, Operation::LDA)),
        0xA5 => Some(Instruction(OperandMode::ZeroPage, Operation::LDA)),
        0xB5 => Some(Instruction(OperandMode::ZeroPageX, Operation::LDA)),
        0xAD => Some(Instruction(OperandMode::Absolute, Operation::LDA)),
        0xBD => Some(Instruction(OperandMode::AbsoluteX, Operation::LDA)),
        0xB9 => Some(Instruction(OperandMode::AbsoluteY, Operation::LDA)),
        0xA1 => Some(Instruction(OperandMode::IndirectX, Operation::LDA)),
        0xB1 => Some(Instruction(OperandMode::IndirectY, Operation::LDA)),
        0xA2 => Some(Instruction(OperandMode::Immediate, Operation::LDX)),
        0xA6 => Some(Instruction(OperandMode::ZeroPage, Operation::LDX)),
        0xB6 => Some(Instruction(OperandMode::ZeroPageY, Operation::LDX)),
        0xAE => Some(Instruction(OperandMode::Absolute, Operation::LDX)),
        0xBE => Some(Instruction(OperandMode::AbsoluteY, Operation::LDX)),
        0xA0 => Some(Instruction(OperandMode::Immediate, Operation::LDY)),
        0xA4 => Some(Instruction(OperandMode::ZeroPage, Operation::LDY)),
        0xB4 => Some(Instruction(OperandMode::ZeroPageX, Operation::LDY)),
        0xAC => Some(Instruction(OperandMode::Absolute, Operation::LDY)),
        0xBC => Some(Instruction(OperandMode::AbsoluteX, Operation::LDY)),
        0x4A => Some(Instruction(OperandMode::Accumulator, Operation::LSR)),
        0x46 => Some(Instruction(OperandMode::ZeroPage, Operation::LSR)),
        0x56 => Some(Instruction(OperandMode::ZeroPageX, Operation::LSR)),
        0x4E => Some(Instruction(OperandMode::Absolute, Operation::LSR)),
        0x5E => Some(Instruction(OperandMode::AbsoluteX, Operation::LSR)),
        0xEA => Some(Instruction(OperandMode::Implied, Operation::NOP)),
        0x09 => Some(Instruction(OperandMode::Immediate, Operation::ORA)),
        0x05 => Some(Instruction(OperandMode::ZeroPage, Operation::ORA)),
        0x15 => Some(Instruction(OperandMode::ZeroPageX, Operation::ORA)),
        0x0D => Some(Instruction(OperandMode::Absolute, Operation::ORA)),
        0x1D => Some(Instruction(OperandMode::AbsoluteX, Operation::ORA)),
        0x19 => Some(Instruction(OperandMode::AbsoluteY, Operation::ORA)),
        0x01 => Some(Instruction(OperandMode::IndirectX, Operation::ORA)),
        0x11 => Some(Instruction(OperandMode::IndirectY, Operation::ORA)),
        0x48 => Some(Instruction(OperandMode::Implied, Operation::PHA)),
        0x08 => Some(Instruction(OperandMode::Implied, Operation::PHP)),
        0x68 => Some(Instruction(OperandMode::Implied, Operation::PLA)),
        0x28 => Some(Instruction(OperandMode::Implied, Operation::PLP)),
        0x2A => Some(Instruction(OperandMode::Accumulator, Operation::ROL)),
        0x26 => Some(Instruction(OperandMode::ZeroPage, Operation::ROL)),
        0x36 => Some(Instruction(OperandMode::ZeroPageX, Operation::ROL)),
        0x2E => Some(Instruction(OperandMode::Absolute, Operation::ROL)),
        0x3E => Some(Instruction(OperandMode::AbsoluteX, Operation::ROL)),
        0x6A => Some(Instruction(OperandMode::Accumulator, Operation::ROR)),
        0x66 => Some(Instruction(OperandMode::ZeroPage, Operation::ROR)),
        0x76 => Some(Instruction(OperandMode::ZeroPageX, Operation::ROR)),
        0x6E => Some(Instruction(OperandMode::Absolute, Operation::ROR)),
        0x7E => Some(Instruction(OperandMode::AbsoluteX, Operation::ROR)),
        0x40 => Some(Instruction(OperandMode::Implied, Operation::RTI)),
        0x60 => Some(Instruction(OperandMode::Implied, Operation::RTS)),
        0xE9 => Some(Instruction(OperandMode::Immediate, Operation::SBC)),
        0xE5 => Some(Instruction(OperandMode::ZeroPage, Operation::SBC)),
        0xF5 => Some(Instruction(OperandMode::ZeroPageX, Operation::SBC)),
        0xED => Some(Instruction(OperandMode::Absolute, Operation::SBC)),
        0xFD => Some(Instruction(OperandMode::AbsoluteX, Operation::SBC)),
        0xF9 => Some(Instruction(OperandMode::AbsoluteY, Operation::SBC)),
        0xE1 => Some(Instruction(OperandMode::IndirectX, Operation::SBC)),
        0xF1 => Some(Instruction(OperandMode::IndirectY, Operation::SBC)),
        0x38 => Some(Instruction(OperandMode::Implied, Operation::SEC)),
        0xF8 => Some(Instruction(OperandMode::Implied, Operation::SED)),
        0x78 => Some(Instruction(OperandMode::Implied, Operation::SEI)),
        0x85 => Some(Instruction(OperandMode::ZeroPage, Operation::STA)),
        0x95 => Some(Instruction(OperandMode::ZeroPageX, Operation::STA)),
        0x8D => Some(Instruction(OperandMode::Absolute, Operation::STA)),
        0x9D => Some(Instruction(OperandMode::AbsoluteX, Operation::STA)),
        0x99 => Some(Instruction(OperandMode::AbsoluteY, Operation::STA)),
        0x81 => Some(Instruction(OperandMode::IndirectX, Operation::STA)),
        0x91 => Some(Instruction(OperandMode::IndirectY, Operation::STA)),
        0x86 => Some(Instruction(OperandMode::ZeroPage, Operation::STX)),
        0x96 => Some(Instruction(OperandMode::ZeroPageY, Operation::STX)),
        0x8E => Some(Instruction(OperandMode::Absolute, Operation::STX)),
        0x84 => Some(Instruction(OperandMode::ZeroPage, Operation::STY)),
        0x94 => Some(Instruction(OperandMode::ZeroPageX, Operation::STY)),
        0x8C => Some(Instruction(OperandMode::Absolute, Operation::STY)),
        0xAA => Some(Instruction(OperandMode::Implied, Operation::TAX)),
        0xA8 => Some(Instruction(OperandMode::Implied, Operation::TAY)),
        0xBA => Some(Instruction(OperandMode::Implied, Operation::TSX)),
        0x8A => Some(Instruction(OperandMode::Implied, Operation::TXA)),
        0x9A => Some(Instruction(OperandMode::Implied, Operation::TXS)),
        0x98 => Some(Instruction(OperandMode::Implied, Operation::TYA)),
        _ => None,
    }
}

/// The inverse direction of the opcode table: the byte that encodes an
/// addressing mode and operation pair, if the pair is in the table.
pub open spec fn spec_encode(instruction: Instruction) -> Option<u8> {
    match (instruction.0, instruction.1) {
        (OperandMode::Immediate, Operation::ADC) => Some(0x69),
        (OperandMode::ZeroPage, Operation::ADC) => Some(0x65),
        (OperandMode::ZeroPageX, Operation::ADC) => Some(0x75),
        (OperandMode::Absolute, Operation::ADC) => Some(0x6D),
        (OperandMode::AbsoluteX, Operation::ADC) => Some(0x7D),
        (OperandMode::AbsoluteY, Operation::ADC) => Some(0x79),
        (OperandMode::IndirectX, Operation::ADC) => Some(0x61),
        (OperandMode::IndirectY, Operation::ADC) => Some(0x71),
        (OperandMode::Immediate, Operation::AND) => Some(0x29),
        (OperandMode::ZeroPage, Operation::AND) => Some(0x25),
        (OperandMode::ZeroPageX, Operation::AND) => Some(0x35),
        (OperandMode::Absolute, Operation::AND) => Some(0x2D),
        (OperandMode::AbsoluteX, Operation::AND) => Some(0x3D),
        (OperandMode::AbsoluteY, Operation::AND) => Some(0x39),
        (OperandMode::IndirectX, Operation::AND) => Some(0x21),
        (OperandMode::IndirectY, Operation::AND) => Some(0x31),
        (OperandMode::Accumulator, Operation::ASL) => Some(0x0A),
        (OperandMode::ZeroPage, Operation::ASL) => Some(0x06),
        (OperandMode::ZeroPageX, Operation::ASL) => Some(0x16),
        (OperandMode::Absolute, Operation::ASL) => Some(0x0E),
        (OperandMode::AbsoluteX, Operation::ASL) => Some(0x1E),
        (OperandMode::Immediate, Operation::BCC) => Some(0x90),
        (OperandMode::Immediate, Operation::BCS) => Some(0xB0),
        (OperandMode::Immediate, Operation::BEQ) => Some(0xF0),
        (OperandMode::ZeroPage, Operation::BIT) => Some(0x24),
        (OperandMode::Absolute, Operation::BIT) => Some(0x2C),
        (OperandMode::Immediate, Operation::BMI) => Some(0x30),
        (OperandMode::Immediate, Operation::BNE) => Some(0xD0),
        (OperandMode::Immediate, Operation::BPL) => Some(0x10),
        (OperandMode::Implied, Operation::BRK) => Some(0x00),
        (OperandMode::Immediate, Operation::BVC) => Some(0x50),
        (OperandMode::Immediate, Operation::BVS) => Some(0x70),
        (OperandMode::Implied, Operation::CLC) => Some(0x18),
        (OperandMode::Implied, Operation::CLD) => Some(0xD8),
        (OperandMode::Implied, Operation::CLI) => Some(0x58),
        (OperandMode::Implied, Operation::CLV) => Some(0xB8),
        (OperandMode::Immediate, Operation::CMP) => Some(0xC9),
        (OperandMode::ZeroPage, Operation::CMP) => Some(0xC5),
        (OperandMode::ZeroPageX, Operation::CMP) => Some(0xD5),
        (OperandMode::Absolute, Operation::CMP) => Some(0xCD),
        (OperandMode::AbsoluteX, Operation::CMP) => Some(0xDD),
        (OperandMode::AbsoluteY, Operation::CMP) => Some(0xD9),
        (OperandMode::IndirectX, Operation::CMP) => Some(0xC1),
        (OperandMode::IndirectY, Operation::CMP) => Some(0xD1),
        (OperandMode::Immediate, Operation::CPX) => Some(0xE0),
        (OperandMode::ZeroPage, Operation::CPX) => Some(0xE4),
        (OperandMode::Absolute, Operation::CPX) => Some(0xEC),
        (OperandMode::Immediate, Operation::CPY) => Some(0xC0),
        (OperandMode::ZeroPage, Operation::CPY) => Some(0xC4),
        (OperandMode::Absolute, Operation::CPY) => Some(0xCC),
        (OperandMode::ZeroPage, Operation::DEC) => Some(0xC6),
        (OperandMode::ZeroPageX, Operation::DEC) => Some(0xD6),
        (OperandMode::Absolute, Operation::DEC) => Some(0xCE),
        (OperandMode::AbsoluteX, Operation::DEC) => Some(0xDE),
        (OperandMode::Implied, Operation::DEX) => Some(0xCA),
        (OperandMode::Implied, Operation::DEY) => Some(0x88),
        (OperandMode::Immediate, Operation::EOR) => Some(0x49),
        (OperandMode::ZeroPage, Operation::EOR) => Some(0x45),
        (OperandMode::ZeroPageX, Operation::EOR) => Some(0x55),
        (OperandMode::Absolute, Operation::EOR) => Some(0x4D),
        (OperandMode::AbsoluteX, Operation::EOR) => Some(0x5D),
        (OperandMode::AbsoluteY, Operation::EOR) => Some(0x59),
        (OperandMode::IndirectX, Operation::EOR) => Some(0x41),
        (OperandMode::IndirectY, Operation::EOR) => Some(0x51),
        (OperandMode::ZeroPage, Operation::INC) => Some(0xE6),
        (OperandMode::ZeroPageX, Operation::INC) => Some(0xF6),
        (OperandMode::Absolute, Operation::INC) => Some(0xEE),
        (OperandMode::AbsoluteX, Operation::INC) => Some(0xFE),
        (OperandMode::Implied, Operation::INX) => Some(0xE8),
        (OperandMode::Implied, Operation::INY) => Some(0xC8),
        (OperandMode::Absolute, Operation::JMP) => Some(0x4C),
        (OperandMode::Indirect, Operation::JMP) => Some(0x6C),
        (OperandMode::Absolute, Operation::JSR) => Some(0x20),
        (OperandMode::Immediate, Operation::LDA) => Some(0xA9),
        (OperandMode::ZeroPage, Operation::LDA) => Some(0xA5),
        (OperandMode::ZeroPageX, Operation::LDA) => Some(0xB5),
        (OperandMode::Absolute, Operation::LDA) => Some(0xAD),
        (OperandMode::AbsoluteX, Operation::LDA) => Some(0xBD),
        (OperandMode::AbsoluteY, Operation::LDA) => Some(0xB9),
        (OperandMode::IndirectX, Operation::LDA) => Some(0xA1),
        (OperandMode::IndirectY, Operation::LDA) => Some(0xB1),
        (OperandMode::Immediate, Operation::LDX) => Some(0xA2),
        (OperandMode::ZeroPage, Operation::LDX) => Some(0xA6),
        (OperandMode::ZeroPageY, Operation::LDX) => Some(0xB6),
        (OperandMode::Absolute, Operation::LDX) => Some(0xAE),
        (OperandMode::AbsoluteY, Operation::LDX) => Some(0xBE),
        (OperandMode::Immediate, Operation::LDY) => Some(0xA0),
        (OperandMode::ZeroPage, Operation::LDY) => Some(0xA4),
        (OperandMode::ZeroPageX, Operation::LDY) => Some(0xB4),
        (OperandMode::Absolute, Operation::LDY) => Some(0xAC),
        (OperandMode::AbsoluteX, Operation::LDY) => Some(0xBC),
        (OperandMode::Accumulator, Operation::LSR) => Some(0x4A),
        (OperandMode::ZeroPage, Operation::LSR) => Some(0x46),
        (OperandMode::ZeroPageX, Operation::LSR) => Some(0x56),
        (OperandMode::Absolute, Operation::LSR) => Some(0x4E),
        (OperandMode::AbsoluteX, Operation::LSR) => Some(0x5E),
        (OperandMode::Implied, Operation::NOP) => Some(0xEA),
        (OperandMode::Immediate, Operation::ORA) => Some(0x09),
        (OperandMode::ZeroPage, Operation::ORA) => Some(0x05),
        (OperandMode::ZeroPageX, Operation::ORA) => Some(0x15),
        (OperandMode::Absolute, Operation::ORA) => Some(0x0D),
        (OperandMode::AbsoluteX, Operation::ORA) => Some(0x1D),
        (OperandMode::AbsoluteY, Operation::ORA) => Some(0x19),
        (OperandMode::IndirectX, Operation::ORA) => Some(0x01),
        (OperandMode::IndirectY, Operation::ORA) => Some(0x11),
        (OperandMode::Implied, Operation::PHA) => Some(0x48),
        (OperandMode::Implied, Operation::PHP) => Some(0x08),
        (OperandMode::Implied, Operation::PLA) => Some(0x68),
        (OperandMode::Implied, Operation::PLP) => Some(0x28),
        (OperandMode::Accumulator, Operation::ROL) => Some(0x2A),
        (OperandMode::ZeroPage, Operation::ROL) => Some(0x26),
        (OperandMode::ZeroPageX, Operation::ROL) => Some(0x36),
        (OperandMode::Absolute, Operation::ROL) => Some(0x2E),
        (OperandMode::AbsoluteX, Operation::ROL) => Some(0x3E),
        (OperandMode::Accumulator, Operation::ROR) => Some(0x6A),
        (OperandMode::ZeroPage, Operation::ROR) => Some(0x66),
        (OperandMode::ZeroPageX, Operation::ROR) => Some(0x76),
        (OperandMode::Absolute, Operation::ROR) => Some(0x6E),
        (OperandMode::AbsoluteX, Operation::ROR) => Some(0x7E),
        (OperandMode::Implied, Operation::RTI) => Some(0x40),
        (OperandMode::Implied, Operation::RTS) => Some(0x60),
        (OperandMode::Immediate, Operation::SBC) => Some(0xE9),
        (OperandMode::ZeroPage, Operation::SBC) => Some(0xE5),
        (OperandMode::ZeroPageX, Operation::SBC) => Some(0xF5),
        (OperandMode::Absolute, Operation::SBC) => Some(0xED),
        (OperandMode::AbsoluteX, Operation::SBC) => Some(0xFD),
        (OperandMode::AbsoluteY, Operation::SBC) => Some(0xF9),
        (OperandMode::IndirectX, Operation::SBC) => Some(0xE1),
        (OperandMode::IndirectY, Operation::SBC) => Some(0xF1),
        (OperandMode::Implied, Operation::SEC) => Some(0x38),
        (OperandMode::Implied, Operation::SED) => Some(0xF8),
        (OperandMode::Implied, Operation::SEI) => Some(0x78),
        (OperandMode::ZeroPage, Operation::STA) => Some(0x85),
        (OperandMode::ZeroPageX, Operation::STA) => Some(0x95),
        (OperandMode::Absolute, Operation::STA) => Some(0x8D),
        (OperandMode::AbsoluteX, Operation::STA) => Some(0x9D),
        (OperandMode::AbsoluteY, Operation::STA) => Some(0x99),
        (OperandMode::IndirectX, Operation::STA) => Some(0x81),
        (OperandMode::IndirectY, Operation::STA) => Some(0x91),
        (OperandMode::ZeroPage, Operation::STX) => Some(0x86),
        (OperandMode::ZeroPageY, Operation::STX) => Some(0x96),
        (OperandMode::Absolute, Operation::STX) => Some(0x8E),
        (OperandMode::ZeroPage, Operation::STY) => Some(0x84),
        (OperandMode::ZeroPageX, Operation::STY) => Some(0x94),
        (OperandMode::Absolute, Operation::STY) => Some(0x8C),
        (OperandMode::Implied, Operation::TAX) => Some(0xAA),
        (OperandMode::Implied, Operation::TAY) => Some(0xA8),
        (OperandMode::Implied, Operation::TSX) => Some(0xBA),
        (OperandMode::Implied, Operation::TXA) => Some(0x8A),
        (OperandMode::Implied, Operation::TXS) => Some(0x9A),
        (OperandMode::Implied, Operation::TYA) => Some(0x98),
        _ => None,
    }
}

/// The base cycle cost of each instruction in the table, with the modes
/// whose operand resolution can cross a page boundary marked as costing
/// one extra cycle.
pub open spec fn spec_cycle_cost(instruction: Instruction) -> Option<CycleCount> {
    match (instruction.0, instruction.1) {
        (OperandMode::Immediate, Operation::ADC) => Some((CycleCount { cycles: 2, page_boundary_costs_extra: false })),
        (OperandMode::ZeroPage, Operation::ADC) => Some((CycleCount { cycles: 3, page_boundary_costs_extra: false })),
        (OperandMode::ZeroPageX, Operation::ADC) => Some((CycleCount { cycles: 4, page_boundary_costs_extra: false })),
        (OperandMode::Absolute, Operation::ADC) => Some((CycleCount { cycles: 4, page_boundary_costs_extra: false })),
        (OperandMode::AbsoluteX, Operation::ADC) => Some((CycleCount { cycles: 4, page_boundary_costs_extra: true })),
        (OperandMode::AbsoluteY, Operation::ADC) => Some((CycleCount { cycles: 4, page_boundary_costs_extra: true })),
        (OperandMode::IndirectX, Operation::ADC) => Some((CycleCount { cycles: 6, page_boundary_costs_extra: false })),
        (OperandMode::IndirectY, Operation::ADC) => Some((CycleCount { cycles: 5, page_boundary_costs_extra: true })),
        (OperandMode::Immediate, Operation::AND) => Some((CycleCount { cycles: 2, page_boundary_costs_extra: false })),
        (OperandMode::ZeroPage, Operation::AND) => Some((CycleCount { cycles: 3, page_boundary_costs_extra: false })),
        (OperandMode::ZeroPageX, Operation::AND) => Some((CycleCount { cycles: 4, page_boundary_costs_extra: false })),
        (OperandMode::Absolute, Operation::AND) => Some((CycleCount { cycles: 4, page_boundary_costs_extra: false })),
        (OperandMode::AbsoluteX, Operation::AND) => Some((CycleCount { cycles: 4, page_boundary_costs_extra: false })),
        (OperandMode::AbsoluteY, Operation::AND) => Some((CycleCount { cycles: 4, page_boundary_costs_extra: false })),
        (OperandMode::IndirectX, Operation::AND) => Some((CycleCount { cycles: 6, page_boundary_costs_extra: false })),
        (OperandMode::IndirectY, Operation::AND) => Some((CycleCount { cycles: 5, page_boundary_costs_extra: false })),
        (OperandMode::Accumulator, Operation::ASL) => Some((CycleCount { cycles: 1, page_boundary_costs_extra: false })),
        (OperandMode::ZeroPage, Operation::ASL) => Some((CycleCount { cycles: 5, page_boundary_costs_extra: false })),
        (OperandMode::ZeroPageX, Operation::ASL) => Some((CycleCount { cycles: 6, page_boundary_costs_extra: false })),
        (OperandMode::Absolute, Operation::ASL) => Some((CycleCount { cycles: 6, page_boundary_costs_extra: false })),
        (OperandMode::AbsoluteX, Operation::ASL) => Some((CycleCount { cycles: 7, page_boundary_costs_extra: false })),
        (OperandMode::Immediate, Operation::BCC) => Some((CycleCount { cycles: 1, page_boundary_costs_extra: false })),
        (OperandMode::Immediate, Operation::BCS) => Some((CycleCount { cycles: 1, page_boundary_costs_extra: false })),
        (OperandMode::Immediate, Operation::BEQ) => Some((CycleCount { cycles: 1, page_boundary_costs_extra: false })),
        (OperandMode::ZeroPage, Operation::BIT) => Some((CycleCount { cycles: 3, page_boundary_costs_extra: false })),
        (OperandMode::Absolute, Operation::BIT) => Some((CycleCount { cycles: 4, page_boundary_costs_extra: false })),
        (OperandMode::Immediate, Operation::BMI) => Some((CycleCount { cycles: 1, page_boundary_costs_extra: false })),
        (OperandMode::Immediate, Operation::BNE) => Some((CycleCount { cycles: 1, page_boundary_costs_extra: false })),
        (OperandMode::Immediate, Operation::BPL) => Some((CycleCount { cycles: 1, page_boundary_costs_extra: false })),
        (OperandMode::Implied, Operation::BRK) => Some((CycleCount { cycles: 7, page_boundary_costs_extra: false })),
        (OperandMode::Immediate, Operation::BVC) => Some((CycleCount { cycles: 1, page_boundary_costs_extra: false })),
        (OperandMode::Immediate, Operation::BVS) => Some((CycleCount { cycles: 1, page_boundary_costs_extra: false })),
        (OperandMode::Implied, Operation::CLC) => Some((CycleCount { cycles: 2, page_boundary_costs_extra: false })),
        (OperandMode::Implied, Operation::CLD) => Some((CycleCount { cycles: 2, page_boundary_costs_extra: false })),
        (OperandMode::Implied, Operation::CLI) => Some((CycleCount { cycles: 2, page_boundary_costs_extra: false })),
        (OperandMode::Implied, Operation::CLV) => Some((CycleCount { cycles: 2, page_boundary_costs_extra: false })),
        (OperandMode::Immediate, Operation::CMP) => Some((CycleCount { cycles: 2, page_boundary_costs_extra: false })),
        (OperandMode::ZeroPage, Operation::CMP) => Some((CycleCount { cycles: 3, page_boundary_costs_extra: false })),
        (OperandMode::ZeroPageX, Operation::CMP) => Some((CycleCount { cycles: 4, page_boundary_costs_extra: false })),
        (OperandMode::Absolute, Operation::CMP) => Some((CycleCount { cycles: 4, page_boundary_costs_extra: false })),
        (OperandMode::AbsoluteX, Operation::CMP) => Some((CycleCount { cycles: 4, page_boundary_costs_extra: true })),
        (OperandMode::AbsoluteY, Operation::CMP) => Some((CycleCount { cycles: 4, page_boundary_costs_extra: true })),
        (OperandMode::IndirectX, Operation::CMP) => Some((CycleCount { cycles: 6, page_boundary_costs_extra: false })),
        (OperandMode::IndirectY, Operation::CMP) => Some((CycleCount { cycles: 5, page_boundary_costs_extra: true })),
        (OperandMode::Immediate, Operation::CPX) => Some((CycleCount { cycles: 2, page_boundary_costs_extra: false })),
        (OperandMode::ZeroPage, Operation::CPX) => Some((CycleCount { cycles: 3, page_boundary_costs_extra: false })),
        (OperandMode::Absolute, Operation::CPX) => Some((CycleCount { cycles: 4, page_boundary_costs_extra: false })),
        (OperandMode::Immediate, Operation::CPY) => Some((CycleCount { cycles: 2, page_boundary_costs_extra: false })),
        (OperandMode::ZeroPage, Operation::CPY) => Some((CycleCount { cycles: 3, page_boundary_costs_extra: false })),
        (OperandMode::Absolute, Operation::CPY) => Some((CycleCount { cycles: 4, page_boundary_costs_extra: false })),
        (OperandMode::ZeroPage, Operation::DEC) => Some((CycleCount { cycles: 5, page_boundary_costs_extra: false })),
        (OperandMode::ZeroPageX, Operation::DEC) => Some((CycleCount { cycles: 6, page_boundary_costs_extra: false })),
        (OperandMode::Absolute, Operation::DEC) => Some((CycleCount { cycles: 6, page_boundary_costs_extra: false })),
        (OperandMode::AbsoluteX, Operation::DEC) => Some((CycleCount { cycles: 7, page_boundary_costs_extra: false })),
        (OperandMode::Implied, Operation::DEX) => Some((CycleCount { cycles: 2, page_boundary_costs_extra: false })),
        (OperandMode::Implied, Operation::DEY) => Some((CycleCount { cycles: 2, page_boundary_costs_extra: false })),
        (OperandMode::Immediate, Operation::EOR) => Some((CycleCount { cycles: 2, page_boundary_costs_extra: false })),
        (OperandMode::ZeroPage, Operation::EOR) => Some((CycleCount { cycles: 3, page_boundary_costs_extra: false })),
        (OperandMode::ZeroPageX, Operation::EOR) => Some((CycleCount { cycles: 4, page_boundary_costs_extra: false })),
        (OperandMode::Absolute, Operation::EOR) => Some((CycleCount { cycles: 4, page_boundary_costs_extra: false })),
        (OperandMode::AbsoluteX, Operation::EOR) => Some((CycleCount { cycles: 4, page_boundary_costs_extra: true })),
        (OperandMode::AbsoluteY, Operation::EOR) => Some((CycleCount { cycles: 4, page_boundary_costs_extra: true })),
        (OperandMode::IndirectX, Operation::EOR) => Some((CycleCount { cycles: 6, page_boundary_costs_extra: false })),
        (OperandMode::IndirectY, Operation::EOR) => Some((CycleCount { cycles: 5, page_boundary_costs_extra: true })),
        (OperandMode::ZeroPage, Operation::INC) => Some((CycleCount { cycles: 5, page_boundary_costs_extra: false })),
        (OperandMode::ZeroPageX, Operation::INC) => Some((CycleCount { cycles: 6, page_boundary_costs_extra: false })),
        (OperandMode::Absolute, Operation::INC) => Some((CycleCount { cycles: 6, page_boundary_costs_extra: false })),
        (OperandMode::AbsoluteX, Operation::INC) => Some((CycleCount { cycles: 7, page_boundary_costs_extra: false })),
        (OperandMode::Implied, Operation::INX) => Some((CycleCount { cycles: 2, page_boundary_costs_extra: false })),
        (OperandMode::Implied, Operation::INY) => Some((CycleCount { cycles: 2, page_boundary_costs_extra: false })),
        (OperandMode::Absolute, Operation::JMP) => Some((CycleCount { cycles: 3, page_boundary_costs_extra: false })),
        (OperandMode::Indirect, Operation::JMP) => Some((CycleCount { cycles: 5, page_boundary_costs_extra: false })),
        (OperandMode::Absolute, Operation::JSR) => Some((CycleCount { cycles: 6, page_boundary_costs_extra: false })),
        (OperandMode::Immediate, Operation::LDA) => Some((CycleCount { cycles: 2, page_boundary_costs_extra: false })),
        (OperandMode::ZeroPage, Operation::LDA) => Some((CycleCount { cycles: 3, page_boundary_costs_extra: false })),
        (OperandMode::ZeroPageX, Operation::LDA) => Some((CycleCount { cycles: 4, page_boundary_costs_extra: false })),
        (OperandMode::Absolute, Operation::LDA) => Some((CycleCount { cycles: 4, page_boundary_costs_extra: false })),
        (OperandMode::AbsoluteX, Operation::LDA) => Some((CycleCount { cycles: 4, page_boundary_costs_extra: true })),
        (OperandMode::AbsoluteY, Operation::LDA) => Some((CycleCount { cycles: 4, page_boundary_costs_extra: true })),
        (OperandMode::IndirectX, Operation::LDA) => Some((CycleCount { cycles: 6, page_boundary_costs_extra: false })),
        (OperandMode::IndirectY, Operation::LDA) => Some((CycleCount { cycles: 5, page_boundary_costs_extra: true })),
        (OperandMode::Immediate, Operation::LDX) => Some((CycleCount { cycles: 2, page_boundary_costs_extra: false })),
        (OperandMode::ZeroPage, Operation::LDX) => Some((CycleCount { cycles: 3, page_boundary_costs_extra: false })),
        (OperandMode::ZeroPageY, Operation::LDX) => Some((CycleCount { cycles: 4, page_boundary_costs_extra: false })),
        (OperandMode::Absolute, Operation::LDX) => Some((CycleCount { cycles: 4, page_boundary_costs_extra: false })),
        (OperandMode::AbsoluteY, Operation::LDX) => Some((CycleCount { cycles: 4, page_boundary_costs_extra: true })),
        (OperandMode::Immediate, Operation::LDY) => Some((CycleCount { cycles: 2, page_boundary_costs_extra: false })),
        (OperandMode::ZeroPage, Operation::LDY) => Some((CycleCount { cycles: 3, page_boundary_costs_extra: false })),
        (OperandMode::ZeroPageX, Operation::LDY) => Some((CycleCount { cycles: 4, page_boundary_costs_extra: false })),
        (OperandMode::Absolute, Operation::LDY) => Some((CycleCount { cycles: 4, page_boundary_costs_extra: false })),
        (OperandMode::AbsoluteX, Operation::LDY) => Some((CycleCount { cycles: 4, page_boundary_costs_extra: true })),
        (OperandMode::Accumulator, Operation::LSR) => Some((CycleCount { cycles: 2, page_boundary_costs_extra: false })),
        (OperandMode::ZeroPage, Operation::LSR) => Some((CycleCount { cycles: 5, page_boundary_costs_extra: false })),
        (OperandMode::ZeroPageX, Operation::LSR) => Some((CycleCount { cycles: 6, page_boundary_costs_extra: false })),
        (OperandMode::Absolute, Operation::LSR) => Some((CycleCount { cycles: 6, page_boundary_costs_extra: false })),
        (OperandMode::AbsoluteX, Operation::LSR) => Some((CycleCount { cycles: 7, page_boundary_costs_extra: false })),
        (OperandMode::Implied, Operation::NOP) => Some((CycleCount { cycles: 2, page_boundary_costs_extra: false })),
        (OperandMode::Immediate, Operation::ORA) => Some((CycleCount { cycles: 2, page_boundary_costs_extra: false })),
        (OperandMode::ZeroPage, Operation::ORA) => Some((CycleCount { cycles: 3, page_boundary_costs_extra: false })),
        (OperandMode::ZeroPageX, Operation::ORA) => Some((CycleCount { cycles: 4, page_boundary_costs_extra: false })),
        (OperandMode::Absolute, Operation::ORA) => Some((CycleCount { cycles: 4, page_boundary_costs_extra: false })),
        (OperandMode::AbsoluteX, Operation::ORA) => Some((CycleCount { cycles: 4, page_boundary_costs_extra: true })),
        (OperandMode::AbsoluteY, Operation::ORA) => Some((CycleCount { cycles: 4, page_boundary_costs_extra: true })),
        (OperandMode::IndirectX, Operation::ORA) => Some((CycleCount { cycles: 6, page_boundary_costs_extra: false })),
        (OperandMode::IndirectY, Operation::ORA) => Some((CycleCount { cycles: 5, page_boundary_costs_extra: true })),
        (OperandMode::Implied, Operation::PHA) => Some((CycleCount { cycles: 1, page_boundary_costs_extra: false })),
        (OperandMode::Implied, Operation::PHP) => Some((CycleCount { cycles: 1, page_boundary_costs_extra: false })),
        (OperandMode::Implied, Operation::PLA) => Some((CycleCount { cycles: 1, page_boundary_costs_extra: false })),
        (OperandMode::Implied, Operation::PLP) => Some((CycleCount { cycles: 1, page_boundary_costs_extra: false })),
        (OperandMode::Accumulator, Operation::ROL) => Some((CycleCount { cycles: 2, page_boundary_costs_extra: false })),
        (OperandMode::ZeroPage, Operation::ROL) => Some((CycleCount { cycles: 5, page_boundary_costs_extra: false })),
        (OperandMode::ZeroPageX, Operation::ROL) => Some((CycleCount { cycles: 6, page_boundary_costs_extra: false })),
        (OperandMode::Absolute, Operation::ROL) => Some((CycleCount { cycles: 6, page_boundary_costs_extra: false })),
        (OperandMode::AbsoluteX, Operation::ROL) => Some((CycleCount { cycles: 7, page_boundary_costs_extra: false })),
        (OperandMode::Accumulator, Operation::ROR) => Some((CycleCount { cycles: 2, page_boundary_costs_extra: false })),
        (OperandMode::ZeroPage, Operation::ROR) => Some((CycleCount { cycles: 5, page_boundary_costs_extra: false })),
        (OperandMode::ZeroPageX, Operation::ROR) => Some((CycleCount { cycles: 6, page_boundary_costs_extra: false })),
        (OperandMode::Absolute, Operation::ROR) => Some((CycleCount { cycles: 6, page_boundary_costs_extra: false })),
        (OperandMode::AbsoluteX, Operation::ROR) => Some((CycleCount { cycles: 7, page_boundary_costs_extra: false })),
        (OperandMode::Implied, Operation::RTI) => Some((CycleCount { cycles: 6, page_boundary_costs_extra: false })),
        (OperandMode::Implied, Operation::RTS) => Some((CycleCount { cycles: 6, page_boundary_costs_extra: false })),
        (OperandMode::Immediate, Operation::SBC) => Some((CycleCount { cycles: 2, page_boundary_costs_extra: false })),
        (OperandMode::ZeroPage, Operation::SBC) => Some((CycleCount { cycles: 3, page_boundary_costs_extra: false })),
        (OperandMode::ZeroPageX, Operation::SBC) => Some((CycleCount { cycles: 4, page_boundary_costs_extra: false })),
        (OperandMode::Absolute, Operation::SBC) => Some((CycleCount { cycles: 4, page_boundary_costs_extra: false })),
        (OperandMode::AbsoluteX, Operation::SBC) => Some((CycleCount { cycles: 4, page_boundary_costs_extra: true })),
        (OperandMode::AbsoluteY, Operation::SBC) => Some((CycleCount { cycles: 4, page_boundary_costs_extra: true })),
        (OperandMode::IndirectX, Operation::SBC) => Some((CycleCount { cycles: 6, page_boundary_costs_extra: false })),
        (OperandMode::IndirectY, Operation::SBC) => Some((CycleCount { cycles: 5, page_boundary_costs_extra: true })),
        (OperandMode::Implied, Operation::SEC) => Some((CycleCount { cycles: 2, page_boundary_costs_extra: false })),
        (OperandMode::Implied, Operation::SED) => Some((CycleCount { cycles: 2, page_boundary_costs_extra: false })),
        (OperandMode::Implied, Operation::SEI) => Some((CycleCount { cycles: 2, page_boundary_costs_extra: false })),
        (OperandMode::ZeroPage, Operation::STA) => Some((CycleCount { cycles: 3, page_boundary_costs_extra: false })),
        (OperandMode::ZeroPageX, Operation::STA) => Some((CycleCount { cycles: 4, page_boundary_costs_extra: false })),
        (OperandMode::Absolute, Operation::STA) => Some((CycleCount { cycles: 4, page_boundary_costs_extra: false })),
        (OperandMode::AbsoluteX, Operation::STA) => Some((CycleCount { cycles: 5, page_boundary_costs_extra: false })),
        (OperandMode::AbsoluteY, Operation::STA) => Some((CycleCount { cycles: 5, page_boundary_costs_extra: false })),
        (OperandMode::IndirectX, Operation::STA) => Some((CycleCount { cycles: 6, page_boundary_costs_extra: false })),
        (OperandMode::IndirectY, Operation::STA) => Some((CycleCount { cycles: 6, page_boundary_costs_extra: false })),
        (OperandMode::ZeroPage, Operation::STX) => Some((CycleCount { cycles: 3, page_boundary_costs_extra: false })),
        (OperandMode::ZeroPageY, Operation::STX) => Some((CycleCount { cycles: 4, page_boundary_costs_extra: false })),
        (OperandMode::Absolute, Operation::STX) => Some((CycleCount { cycles: 4, page_boundary_costs_extra: false })),
        (OperandMode::ZeroPage, Operation::STY) => Some((CycleCount { cycles: 3, page_boundary_costs_extra: false })),
        (OperandMode::ZeroPageX, Operation::STY) => Some((CycleCount { cycles: 4, page_boundary_costs_extra: false })),
        (OperandMode::Absolute, Operation::STY) => Some((CycleCount { cycles: 4, page_boundary_costs_extra: false })),
        (OperandMode::Implied, Operation::TAX) => Some((CycleCount { cycles: 2, page_boundary_costs_extra: false })),
        (OperandMode::Implied, Operation::TAY) => Some((CycleCount { cycles: 2, page_boundary_costs_extra: false })),
        (OperandMode::Implied, Operation::TSX) => Some((CycleCount { cycles: 2, page_boundary_costs_extra: false })),
        (OperandMode::Implied, Operation::TXA) => Some((CycleCount { cycles: 2, page_boundary_costs_extra: false })),
        (OperandMode::Implied, Operation::TXS) => Some((CycleCount { cycles: 2, page_boundary_costs_extra: false })),
        (OperandMode::Implied, Operation::TYA) => Some((CycleCount { cycles: 2, page_boundary_costs_extra: false })),
        _ => None,
    }
}

/// Decodes one opcode byte against the table.
pub fn bytecode_to_instruction(bytecode: u8) -> (r: Result<Instruction, DecodeError>)
    ensures
        spec_decode(bytecode) matches Some(instruction) ==> r == Ok::<_, DecodeError>(instruction),
        spec_decode(bytecode) is None ==> r == Err::<Instruction, _>(DecodeError::UnknownOpcode),
{
    match bytecode {
        0x69 => Ok(Instruction(OperandMode::Immediate, Operation::ADC)),
        0x65 => Ok(Instruction(OperandMode::ZeroPage, Operation::ADC)),
        0x75 => Ok(Instruction(OperandMode::ZeroPageX, Operation::ADC)),
        0x6D => Ok(Instruction(OperandMode::Absolute, Operation::ADC)),
        0x7D => Ok(Instruction(OperandMode::AbsoluteX, Operation::ADC)),
        0x79 => Ok(Instruction(OperandMode::AbsoluteY, Operation::ADC)),
        0x61 => Ok(Instruction(OperandMode::IndirectX, Operation::ADC)),
        0x71 => Ok(Instruction(OperandMode::IndirectY, Operation::ADC)),
        0x29 => Ok(Instruction(OperandMode::Immediate, Operation::AND)),
        0x25 => Ok(Instruction(OperandMode::ZeroPage, Operation::AND)),
        0x35 => Ok(Instruction(OperandMode::ZeroPageX, Operation::AND)),
        0x2D => Ok(Instruction(OperandMode::Absolute, Operation::AND)),
        0x3D => Ok(Instruction(OperandMode::AbsoluteX, Operation::AND)),
        0x39 => Ok(Instruction(OperandMode::AbsoluteY, Operation::AND)),
        0x21 => Ok(Instruction(OperandMode::IndirectX, Operation::AND)),
        0x31 => Ok(Instruction(OperandMode::IndirectY, Operation::AND)),
        0x0A => Ok(Instruction(OperandMode::Accumulator, Operation::ASL)),
        0x06 => Ok(Instruction(OperandMode::ZeroPage, Operation::ASL)),
        0x16 => Ok(Instruction(OperandMode::ZeroPageX, Operation::ASL)),
        0x0E => Ok(Instruction(OperandMode::Absolute, Operation::ASL)),
        0x1E => Ok(Instruction(OperandMode::AbsoluteX, Operation::ASL)),
        0x90 => Ok(Instruction(OperandMode::Immediate, Operation::BCC)),
        0xB0 => Ok(Instruction(OperandMode::Immediate, Operation::BCS)),
        0xF0 => Ok(Instruction(OperandMode::Immediate, Operation::BEQ)),
        0x24 => Ok(Instruction(OperandMode::ZeroPage, Operation::BIT)),
        0x2C => Ok(Instruction(OperandMode::Absolute, Operation::BIT)),
        0x30 => Ok(Instruction(OperandMode::Immediate, Operation::BMI)),
        0xD0 => Ok(Instruction(OperandMode::Immediate, Operation::BNE)),
        0x10 => Ok(Instruction(OperandMode::Immediate, Operation::BPL)),
        0x00 => Ok(Instruction(OperandMode::Implied, Operation::BRK)),
        0x50 => Ok(Instruction(OperandMode::Immediate, Operation::BVC)),
        0x70 => Ok(Instruction(OperandMode::Immediate, Operation::BVS)),
        0x18 => Ok(Instruction(OperandMode::Implied, Operation::CLC)),
        0xD8 => Ok(Instruction(OperandMode::Implied, Operation::CLD)),
        0x58 => Ok(Instruction(OperandMode::Implied, Operation::CLI)),
        0xB8 => Ok(Instruction(OperandMode::Implied, Operation::CLV)),
        0xC9 => Ok(Instruction(OperandMode::Immediate, Operation::CMP)),
        0xC5 => Ok(Instruction(OperandMode::ZeroPage, Operation::CMP)),
        0xD5 => Ok(Instruction(OperandMode::ZeroPageX, Operation::CMP)),
        0xCD => Ok(Instruction(OperandMode::Absolute, Operation::CMP)),
        0xDD => Ok(Instruction(OperandMode::AbsoluteX, Operation::CMP)),
        0xD9 => Ok(Instruction(OperandMode::AbsoluteY, Operation::CMP)),
        0xC1 => Ok(Instruction(OperandMode::IndirectX, Operation::CMP)),
        0xD1 => Ok(Instruction(OperandMode::IndirectY, Operation::CMP)),
        0xE0 => Ok(Instruction(OperandMode::Immediate, Operation::CPX)),
        0xE4 => Ok(Instruction(OperandMode::ZeroPage, Operation::CPX)),
        0xEC => Ok(Instruction(OperandMode::Absolute, Operation::CPX)),
        0xC0 => Ok(Instruction(OperandMode::Immediate, Operation::CPY)),
        0xC4 => Ok(Instruction(OperandMode::ZeroPage, Operation::CPY)),
        0xCC => Ok(Instruction(OperandMode::Absolute, Operation::CPY)),
        0xC6 => Ok(Instruction(OperandMode::ZeroPage, Operation::DEC)),
        0xD6 => Ok(Instruction(OperandMode::ZeroPageX, Operation::DEC)),
        0xCE => Ok(Instruction(OperandMode::Absolute, Operation::DEC)),
        0xDE => Ok(Instruction(OperandMode::AbsoluteX, Operation::DEC)),
        0xCA => Ok(Instruction(OperandMode::Implied, Operation::DEX)),
        0x88 => Ok(Instruction(OperandMode::Implied, Operation::DEY)),
        0x49 => Ok(Instruction(OperandMode::Immediate, Operation::EOR)),
        0x45 => Ok(Instruction(OperandMode::ZeroPage, Operation::EOR)),
        0x55 => Ok(Instruction(OperandMode::ZeroPageX, Operation::EOR)),
        0x4D => Ok(Instruction(OperandMode::Absolute, Operation::EOR)),
        0x5D => Ok(Instruction(OperandMode::AbsoluteX, Operation::EOR)),
        0x59 => Ok(Instruction(OperandMode::AbsoluteY, Operation::EOR)),
        0x41 => Ok(Instruction(OperandMode::IndirectX, Operation::EOR)),
        0x51 => Ok(Instruction(OperandMode::IndirectY, Operation::EOR)),
        0xE6 => Ok(Instruction(OperandMode::ZeroPage, Operation::INC)),
        0xF6 => Ok(Instruction(OperandMode::ZeroPageX, Operation::INC)),
        0xEE => Ok(Instruction(OperandMode::Absolute, Operation::INC)),
        0xFE => Ok(Instruction(OperandMode::AbsoluteX, Operation::INC)),
        0xE8 => Ok(Instruction(OperandMode::Implied, Operation::INX)),
        0xC8 => Ok(Instruction(OperandMode::Implied, Operation::INY)),
        0x4C => Ok(Instruction(OperandMode::Absolute, Operation::JMP)),
        0x6C => Ok(Instruction(OperandMode::Indirect, Operation::JMP)),
        0x20 => Ok(Instruction(OperandMode::Absolute, Operation::JSR)),
        0xA9 => Ok(Instruction(OperandMode::Immediate, Operation::LDA)),
        0xA5 => Ok(Instruction(OperandMode::ZeroPage, Operation::LDA)),
        0xB5 => Ok(Instruction(OperandMode::ZeroPageX, Operation::LDA)),
        0xAD => Ok(Instruction(OperandMode::Absolute, Operation::LDA)),
        0xBD => Ok(Instruction(OperandMode::AbsoluteX, Operation::LDA)),
        0xB9 => Ok(Instruction(OperandMode::AbsoluteY, Operation::LDA)),
        0xA1 => Ok(Instruction(OperandMode::IndirectX, Operation::LDA)),
        0xB1 => Ok(Instruction(OperandMode::IndirectY, Operation::LDA)),
        0xA2 => Ok(Instruction(OperandMode::Immediate, Operation::LDX)),
        0xA6 => Ok(Instruction(OperandMode::ZeroPage, Operation::LDX)),
        0xB6 => Ok(Instruction(OperandMode::ZeroPageY, Operation::LDX)),
        0xAE => Ok(Instruction(OperandMode::Absolute, Operation::LDX)),
        0xBE => Ok(Instruction(OperandMode::AbsoluteY, Operation::LDX)),
        0xA0 => Ok(Instruction(OperandMode::Immediate, Operation::LDY)),
        0xA4 => Ok(Instruction(OperandMode::ZeroPage, Operation::LDY)),
        0xB4 => Ok(Instruction(OperandMode::ZeroPageX, Operation::LDY)),
        0xAC => Ok(Instruction(OperandMode::Absolute, Operation::LDY)),
        0xBC => Ok(Instruction(OperandMode::AbsoluteX, Operation::LDY)),
        0x4A => Ok(Instruction(OperandMode::Accumulator, Operation::LSR)),
        0x46 => Ok(Instruction(OperandMode::ZeroPage, Operation::LSR)),
        0x56 => Ok(Instruction(OperandMode::ZeroPageX, Operation::LSR)),
        0x4E => Ok(Instruction(OperandMode::Absolute, Operation::LSR)),
        0x5E => Ok(Instruction(OperandMode::AbsoluteX, Operation::LSR)),
        0xEA => Ok(Instruction(OperandMode::Implied, Operation::NOP)),
        0x09 => Ok(Instruction(OperandMode::Immediate, Operation::ORA)),
        0x05 => Ok(Instruction(OperandMode::ZeroPage, Operation::ORA)),
        0x15 => Ok(Instruction(OperandMode::ZeroPageX, Operation::ORA)),
        0x0D => Ok(Instruction(OperandMode::Absolute, Operation::ORA)),
        0x1D => Ok(Instruction(OperandMode::AbsoluteX, Operation::ORA)),
        0x19 => Ok(Instruction(OperandMode::AbsoluteY, Operation::ORA)),
        0x01 => Ok(Instruction(OperandMode::IndirectX, Operation::ORA)),
        0x11 => Ok(Instruction(OperandMode::IndirectY, Operation::ORA)),
        0x48 => Ok(Instruction(OperandMode::Implied, Operation::PHA)),
        0x08 => Ok(Instruction(OperandMode::Implied, Operation::PHP)),
        0x68 => Ok(Instruction(OperandMode::Implied, Operation::PLA)),
        0x28 => Ok(Instruction(OperandMode::Implied, Operation::PLP)),
        0x2A => Ok(Instruction(OperandMode::Accumulator, Operation::ROL)),
        0x26 => Ok(Instruction(OperandMode::ZeroPage, Operation::ROL)),
        0x36 => Ok(Instruction(OperandMode::ZeroPageX, Operation::ROL)),
        0x2E => Ok(Instruction(OperandMode::Absolute, Operation::ROL)),
        0x3E => Ok(Instruction(OperandMode::AbsoluteX, Operation::ROL)),
        0x6A => Ok(Instruction(OperandMode::Accumulator, Operation::ROR)),
        0x66 => Ok(Instruction(OperandMode::ZeroPage, Operation::ROR)),
        0x76 => Ok(Instruction(OperandMode::ZeroPageX, Operation::ROR)),
        0x6E => Ok(Instruction(OperandMode::Absolute, Operation::ROR)),
        0x7E => Ok(Instruction(OperandMode::AbsoluteX, Operation::ROR)),
        0x40 => Ok(Instruction(OperandMode::Implied, Operation::RTI)),
        0x60 => Ok(Instruction(OperandMode::Implied, Operation::RTS)),
        0xE9 => Ok(Instruction(OperandMode::Immediate, Operation::SBC)),
        0xE5 => Ok(Instruction(OperandMode::ZeroPage, Operation::SBC)),
        0xF5 => Ok(Instruction(OperandMode::ZeroPageX, Operation::SBC)),
        0xED => Ok(Instruction(OperandMode::Absolute, Operation::SBC)),
        0xFD => Ok(Instruction(OperandMode::AbsoluteX, Operation::SBC)),
        0xF9 => Ok(Instruction(OperandMode::AbsoluteY, Operation::SBC)),
        0xE1 => Ok(Instruction(OperandMode::IndirectX, Operation::SBC)),
        0xF1 => Ok(Instruction(OperandMode::IndirectY, Operation::SBC)),
        0x38 => Ok(Instruction(OperandMode::Implied, Operation::SEC)),
        0xF8 => Ok(Instruction(OperandMode::Implied, Operation::SED)),
        0x78 => Ok(Instruction(OperandMode::Implied, Operation::SEI)),
        0x85 => Ok(Instruction(OperandMode::ZeroPage, Operation::STA)),
        0x95 => Ok(Instruction(OperandMode::ZeroPageX, Operation::STA)),
        0x8D => Ok(Instruction(OperandMode::Absolute, Operation::STA)),
        0x9D => Ok(Instruction(OperandMode::AbsoluteX, Operation::STA)),
        0x99 => Ok(Instruction(OperandMode::AbsoluteY, Operation::STA)),
        0x81 => Ok(Instruction(OperandMode::IndirectX, Operation::STA)),
        0x91 => Ok(Instruction(OperandMode::IndirectY, Operation::STA)),
        0x86 => Ok(Instruction(OperandMode::ZeroPage, Operation::STX)),
        0x96 => Ok(Instruction(OperandMode::ZeroPageY, Operation::STX)),
        0x8E => Ok(Instruction(OperandMode::Absolute, Operation::STX)),
        0x84 => Ok(Instruction(OperandMode::ZeroPage, Operation::STY)),
        0x94 => Ok(Instruction(OperandMode::ZeroPageX, Operation::STY)),
        0x8C => Ok(Instruction(OperandMode::Absolute, Operation::STY)),
        0xAA => Ok(Instruction(OperandMode::Implied, Operation::TAX)),
        0xA8 => Ok(Instruction(OperandMode::Implied, Operation::TAY)),
        0xBA => Ok(Instruction(OperandMode::Implied, Operation::TSX)),
        0x8A => Ok(Instruction(OperandMode::Implied, Operation::TXA)),
        0x9A => Ok(Instruction(OperandMode::Implied, Operation::TXS)),
        0x98 => Ok(Instruction(OperandMode::Implied, Operation::TYA)),
        _ => Err(DecodeError::UnknownOpcode),
    }
}

/// Encodes an instruction back into its opcode byte.
pub fn instruction_to_bytecode(instruction: Instruction) -> (r: Result<u8, EncodeError>)
    ensures
        spec_encode(instruction) matches Some(bytecode) ==> r == Ok::<_, EncodeError>(bytecode),
        spec_encode(instruction) is None ==> r == Err::<u8, _>(EncodeError::UnknownInstruction),
{
    match (instruction.0, instruction.1) {
        (OperandMode::Immediate, Operation::ADC) => Ok(0x69),
        (OperandMode::ZeroPage, Operation::ADC) => Ok(0x65),
        (OperandMode::ZeroPageX, Operation::ADC) => Ok(0x75),
        (OperandMode::Absolute, Operation::ADC) => Ok(0x6D),
        (OperandMode::AbsoluteX, Operation::ADC) => Ok(0x7D),
        (OperandMode::AbsoluteY, Operation::ADC) => Ok(0x79),
        (OperandMode::IndirectX, Operation::ADC) => Ok(0x61),
        (OperandMode::IndirectY, Operation::ADC) => Ok(0x71),
        (OperandMode::Immediate, Operation::AND) => Ok(0x29),
        (OperandMode::ZeroPage, Operation::AND) => Ok(0x25),
        (OperandMode::ZeroPageX, Operation::AND) => Ok(0x35),
        (OperandMode::Absolute, Operation::AND) => Ok(0x2D),
        (OperandMode::AbsoluteX, Operation::AND) => Ok(0x3D),
        (OperandMode::AbsoluteY, Operation::AND) => Ok(0x39),
        (OperandMode::IndirectX, Operation::AND) => Ok(0x21),
        (OperandMode::IndirectY, Operation::AND) => Ok(0x31),
        (OperandMode::Accumulator, Operation::ASL) => Ok(0x0A),
        (OperandMode::ZeroPage, Operation::ASL) => Ok(0x06),
        (OperandMode::ZeroPageX, Operation::ASL) => Ok(0x16),
        (OperandMode::Absolute, Operation::ASL) => Ok(0x0E),
        (OperandMode::AbsoluteX, Operation::ASL) => Ok(0x1E),
        (OperandMode::Immediate, Operation::BCC) => Ok(0x90),
        (OperandMode::Immediate, Operation::BCS) => Ok(0xB0),
        (OperandMode::Immediate, Operation::BEQ) => Ok(0xF0),
        (OperandMode::ZeroPage, Operation::BIT) => Ok(0x24),
        (OperandMode::Absolute, Operation::BIT) => Ok(0x2C),
        (OperandMode::Immediate, Operation::BMI) => Ok(0x30),
        (OperandMode::Immediate, Operation::BNE) => Ok(0xD0),
        (OperandMode::Immediate, Operation::BPL) => Ok(0x10),
        (OperandMode::Implied, Operation::BRK) => Ok(0x00),
        (OperandMode::Immediate, Operation::BVC) => Ok(0x50),
        (OperandMode::Immediate, Operation::BVS) => Ok(0x70),
        (OperandMode::Implied, Operation::CLC) => Ok(0x18),
        (OperandMode::Implied, Operation::CLD) => Ok(0xD8),
        (OperandMode::Implied, Operation::CLI) => Ok(0x58),
        (OperandMode::Implied, Operation::CLV) => Ok(0xB8),
        (OperandMode::Immediate, Operation::CMP) => Ok(0xC9),
        (OperandMode::ZeroPage, Operation::CMP) => Ok(0xC5),
        (OperandMode::ZeroPageX, Operation::CMP) => Ok(0xD5),
        (OperandMode::Absolute, Operation::CMP) => Ok(0xCD),
        (OperandMode::AbsoluteX, Operation::CMP) => Ok(0xDD),
        (OperandMode::AbsoluteY, Operation::CMP) => Ok(0xD9),
        (OperandMode::IndirectX, Operation::CMP) => Ok(0xC1),
        (OperandMode::IndirectY, Operation::CMP) => Ok(0xD1),
        (OperandMode::Immediate, Operation::CPX) => Ok(0xE0),
        (OperandMode::ZeroPage, Operation::CPX) => Ok(0xE4),
        (OperandMode::Absolute, Operation::CPX) => Ok(0xEC),
        (OperandMode::Immediate, Operation::CPY) => Ok(0xC0),
        (OperandMode::ZeroPage, Operation::CPY) => Ok(0xC4),
        (OperandMode::Absolute, Operation::CPY) => Ok(0xCC),
        (OperandMode::ZeroPage, Operation::DEC) => Ok(0xC6),
        (OperandMode::ZeroPageX, Operation::DEC) => Ok(0xD6),
        (OperandMode::Absolute, Operation::DEC) => Ok(0xCE),
        (OperandMode::AbsoluteX, Operation::DEC) => Ok(0xDE),
        (OperandMode::Implied, Operation::DEX) => Ok(0xCA),
        (OperandMode::Implied, Operation::DEY) => Ok(0x88),
        (OperandMode::Immediate, Operation::EOR) => Ok(0x49),
        (OperandMode::ZeroPage, Operation::EOR) => Ok(0x45),
        (OperandMode::ZeroPageX, Operation::EOR) => Ok(0x55),
        (OperandMode::Absolute, Operation::EOR) => Ok(0x4D),
        (OperandMode::AbsoluteX, Operation::EOR) => Ok(0x5D),
        (OperandMode::AbsoluteY, Operation::EOR) => Ok(0x59),
        (OperandMode::IndirectX, Operation::EOR) => Ok(0x41),
        (OperandMode::IndirectY, Operation::EOR) => Ok(0x51),
        (OperandMode::ZeroPage, Operation::INC) => Ok(0xE6),
        (OperandMode::ZeroPageX, Operation::INC) => Ok(0xF6),
        (OperandMode::Absolute, Operation::INC) => Ok(0xEE),
        (OperandMode::AbsoluteX, Operation::INC) => Ok(0xFE),
        (OperandMode::Implied, Operation::INX) => Ok(0xE8),
        (OperandMode::Implied, Operation::INY) => Ok(0xC8),
        (OperandMode::Absolute, Operation::JMP) => Ok(0x4C),
        (OperandMode::Indirect, Operation::JMP) => Ok(0x6C),
        (OperandMode::Absolute, Operation::JSR) => Ok(0x20),
        (OperandMode::Immediate, Operation::LDA) => Ok(0xA9),
        (OperandMode::ZeroPage, Operation::LDA) => Ok(0xA5),
        (OperandMode::ZeroPageX, Operation::LDA) => Ok(0xB5),
        (OperandMode::Absolute, Operation::LDA) => Ok(0xAD),
        (OperandMode::AbsoluteX, Operation::LDA) => Ok(0xBD),
        (OperandMode::AbsoluteY, Operation::LDA) => Ok(0xB9),
        (OperandMode::IndirectX, Operation::LDA) => Ok(0xA1),
        (OperandMode::IndirectY, Operation::LDA) => Ok(0xB1),
        (OperandMode::Immediate, Operation::LDX) => Ok(0xA2),
        (OperandMode::ZeroPage, Operation::LDX) => Ok(0xA6),
        (OperandMode::ZeroPageY, Operation::LDX) => Ok(0xB6),
        (OperandMode::Absolute, Operation::LDX) => Ok(0xAE),
        (OperandMode::AbsoluteY, Operation::LDX) => Ok(0xBE),
        (OperandMode::Immediate, Operation::LDY) => Ok(0xA0),
        (OperandMode::ZeroPage, Operation::LDY) => Ok(0xA4),
        (OperandMode::ZeroPageX, Operation::LDY) => Ok(0xB4),
        (OperandMode::Absolute, Operation::LDY) => Ok(0xAC),
        (OperandMode::AbsoluteX, Operation::LDY) => Ok(0xBC),
        (OperandMode::Accumulator, Operation::LSR) => Ok(0x4A),
        (OperandMode::ZeroPage, Operation::LSR) => Ok(0x46),
        (OperandMode::ZeroPageX, Operation::LSR) => Ok(0x56),
        (OperandMode::Absolute, Operation::LSR) => Ok(0x4E),
        (OperandMode::AbsoluteX, Operation::LSR) => Ok(0x5E),
        (OperandMode::Implied, Operation::NOP) => Ok(0xEA),
        (OperandMode::Immediate, Operation::ORA) => Ok(0x09),
        (OperandMode::ZeroPage, Operation::ORA) => Ok(0x05),
        (OperandMode::ZeroPageX, Operation::ORA) => Ok(0x15),
        (OperandMode::Absolute, Operation::ORA) => Ok(0x0D),
        (OperandMode::AbsoluteX, Operation::ORA) => Ok(0x1D),
        (OperandMode::AbsoluteY, Operation::ORA) => Ok(0x19),
        (OperandMode::IndirectX, Operation::ORA) => Ok(0x01),
        (OperandMode::IndirectY, Operation::ORA) => Ok(0x11),
        (OperandMode::Implied, Operation::PHA) => Ok(0x48),
        (OperandMode::Implied, Operation::PHP) => Ok(0x08),
        (OperandMode::Implied, Operation::PLA) => Ok(0x68),
        (OperandMode::Implied, Operation::PLP) => Ok(0x28),
        (OperandMode::Accumulator, Operation::ROL) => Ok(0x2A),
        (OperandMode::ZeroPage, Operation::ROL) => Ok(0x26),
        (OperandMode::ZeroPageX, Operation::ROL) => Ok(0x36),
        (OperandMode::Absolute, Operation::ROL) => Ok(0x2E),
        (OperandMode::AbsoluteX, Operation::ROL) => Ok(0x3E),
        (OperandMode::Accumulator, Operation::ROR) => Ok(0x6A),
        (OperandMode::ZeroPage, Operation::ROR) => Ok(0x66),
        (OperandMode::ZeroPageX, Operation::ROR) => Ok(0x76),
        (OperandMode::Absolute, Operation::ROR) => Ok(0x6E),
        (OperandMode::AbsoluteX, Operation::ROR) => Ok(0x7E),
        (OperandMode::Implied, Operation::RTI) => Ok(0x40),
        (OperandMode::Implied, Operation::RTS) => Ok(0x60),
        (OperandMode::Immediate, Operation::SBC) => Ok(0xE9),
        (OperandMode::ZeroPage, Operation::SBC) => Ok(0xE5),
        (OperandMode::ZeroPageX, Operation::SBC) => Ok(0xF5),
        (OperandMode::Absolute, Operation::SBC) => Ok(0xED),
        (OperandMode::AbsoluteX, Operation::SBC) => Ok(0xFD),
        (OperandMode::AbsoluteY, Operation::SBC) => Ok(0xF9),
        (OperandMode::IndirectX, Operation::SBC) => Ok(0xE1),
        (OperandMode::IndirectY, Operation::SBC) => Ok(0xF1),
        (OperandMode::Implied, Operation::SEC) => Ok(0x38),
        (OperandMode::Implied, Operation::SED) => Ok(0xF8),
        (OperandMode::Implied, Operation::SEI) => Ok(0x78),
        (OperandMode::ZeroPage, Operation::STA) => Ok(0x85),
        (OperandMode::ZeroPageX, Operation::STA) => Ok(0x95),
        (OperandMode::Absolute, Operation::STA) => Ok(0x8D),
        (OperandMode::AbsoluteX, Operation::STA) => Ok(0x9D),
        (OperandMode::AbsoluteY, Operation::STA) => Ok(0x99),
        (OperandMode::IndirectX, Operation::STA) => Ok(0x81),
        (OperandMode::IndirectY, Operation::STA) => Ok(0x91),
        (OperandMode::ZeroPage, Operation::STX) => Ok(0x86),
        (OperandMode::ZeroPageY, Operation::STX) => Ok(0x96),
        (OperandMode::Absolute, Operation::STX) => Ok(0x8E),
        (OperandMode::ZeroPage, Operation::STY) => Ok(0x84),
        (OperandMode::ZeroPageX, Operation::STY) => Ok(0x94),
        (OperandMode::Absolute, Operation::STY) => Ok(0x8C),
        (OperandMode::Implied, Operation::TAX) => Ok(0xAA),
        (OperandMode::Implied, Operation::TAY) => Ok(0xA8),
        (OperandMode::Implied, Operation::TSX) => Ok(0xBA),
        (OperandMode::Implied, Operation::TXA) => Ok(0x8A),
        (OperandMode::Implied, Operation::TXS) => Ok(0x9A),
        (OperandMode::Implied, Operation::TYA) => Ok(0x98),
        _ => Err(EncodeError::UnknownInstruction),
    }
}

fn cycles(base: u8) -> (r: CycleCount)
    ensures
        r == (CycleCount { cycles: base, page_boundary_costs_extra: false }),
{
    CycleCount { cycles: base, page_boundary_costs_extra: false }
}

fn cycles_with_extra_cost(base: u8) -> (r: CycleCount)
    ensures
        r == (CycleCount { cycles: base, page_boundary_costs_extra: true }),
{
    CycleCount { cycles: base, page_boundary_costs_extra: true }
}

/// Looks the cycle timing of an instruction up.
pub fn calculate_cycles(instr: &Instruction) -> (r: Result<CycleCount, CycleError>)
    ensures
        spec_cycle_cost(*instr) matches Some(cost) ==> r == Ok::<_, CycleError>(cost),
        spec_cycle_cost(*instr) is None ==> r == Err::<CycleCount, _>(CycleError::UnknownInstruction),
{
    match (instr.0, instr.1) {
        (OperandMode::Immediate, Operation::ADC) => Ok(cycles(2)),
        (OperandMode::ZeroPage, Operation::ADC) => Ok(cycles(3)),
        (OperandMode::ZeroPageX, Operation::ADC) => Ok(cycles(4)),
        (OperandMode::Absolute, Operation::ADC) => Ok(cycles(4)),
        (OperandMode::AbsoluteX, Operation::ADC) => Ok(cycles_with_extra_cost(4)),
        (OperandMode::AbsoluteY, Operation::ADC) => Ok(cycles_with_extra_cost(4)),
        (OperandMode::IndirectX, Operation::ADC) => Ok(cycles(6)),
        (OperandMode::IndirectY, Operation::ADC) => Ok(cycles_with_extra_cost(5)),
        (OperandMode::Immediate, Operation::AND) => Ok(cycles(2)),
        (OperandMode::ZeroPage, Operation::AND) => Ok(cycles(3)),
        (OperandMode::ZeroPageX, Operation::AND) => Ok(cycles(4)),
        (OperandMode::Absolute, Operation::AND) => Ok(cycles(4)),
        (OperandMode::AbsoluteX, Operation::AND) => Ok(cycles(4)),
        (OperandMode::AbsoluteY, Operation::AND) => Ok(cycles(4)),
        (OperandMode::IndirectX, Operation::AND) => Ok(cycles(6)),
        (OperandMode::IndirectY, Operation::AND) => Ok(cycles(5)),
        (OperandMode::Accumulator, Operation::ASL) => Ok(cycles(1)),
        (OperandMode::ZeroPage, Operation::ASL) => Ok(cycles(5)),
        (OperandMode::ZeroPageX, Operation::ASL) => Ok(cycles(6)),
        (OperandMode::Absolute, Operation::ASL) => Ok(cycles(6)),
        (OperandMode::AbsoluteX, Operation::ASL) => Ok(cycles(7)),
        (OperandMode::Immediate, Operation::BCC) => Ok(cycles(1)),
        (OperandMode::Immediate, Operation::BCS) => Ok(cycles(1)),
        (OperandMode::Immediate, Operation::BEQ) => Ok(cycles(1)),
        (OperandMode::ZeroPage, Operation::BIT) => Ok(cycles(3)),
        (OperandMode::Absolute, Operation::BIT) => Ok(cycles(4)),
        (OperandMode::Immediate, Operation::BMI) => Ok(cycles(1)),
        (OperandMode::Immediate, Operation::BNE) => Ok(cycles(1)),
        (OperandMode::Immediate, Operation::BPL) => Ok(cycles(1)),
        (OperandMode::Implied, Operation::BRK) => Ok(cycles(7)),
        (OperandMode::Immediate, Operation::BVC) => Ok(cycles(1)),
        (OperandMode::Immediate, Operation::BVS) => Ok(cycles(1)),
        (OperandMode::Implied, Operation::CLC) => Ok(cycles(2)),
        (OperandMode::Implied, Operation::CLD) => Ok(cycles(2)),
        (OperandMode::Implied, Operation::CLI) => Ok(cycles(2)),
        (OperandMode::Implied, Operation::CLV) => Ok(cycles(2)),
        (OperandMode::Immediate, Operation::CMP) => Ok(cycles(2)),
        (OperandMode::ZeroPage, Operation::CMP) => Ok(cycles(3)),
        (OperandMode::ZeroPageX, Operation::CMP) => Ok(cycles(4)),
        (OperandMode::Absolute, Operation::CMP) => Ok(cycles(4)),
        (OperandMode::AbsoluteX, Operation::CMP) => Ok(cycles_with_extra_cost(4)),
        (OperandMode::AbsoluteY, Operation::CMP) => Ok(cycles_with_extra_cost(4)),
        (OperandMode::IndirectX, Operation::CMP) => Ok(cycles(6)),
        (OperandMode::IndirectY, Operation::CMP) => Ok(cycles_with_extra_cost(5)),
        (OperandMode::Immediate, Operation::CPX) => Ok(cycles(2)),
        (OperandMode::ZeroPage, Operation::CPX) => Ok(cycles(3)),
        (OperandMode::Absolute, Operation::CPX) => Ok(cycles(4)),
        (OperandMode::Immediate, Operation::CPY) => Ok(cycles(2)),
        (OperandMode::ZeroPage, Operation::CPY) => Ok(cycles(3)),
        (OperandMode::Absolute, Operation::CPY) => Ok(cycles(4)),
        (OperandMode::ZeroPage, Operation::DEC) => Ok(cycles(5)),
        (OperandMode::ZeroPageX, Operation::DEC) => Ok(cycles(6)),
        (OperandMode::Absolute, Operation::DEC) => Ok(cycles(6)),
        (OperandMode::AbsoluteX, Operation::DEC) => Ok(cycles(7)),
        (OperandMode::Implied, Operation::DEX) => Ok(cycles(2)),
        (OperandMode::Implied, Operation::DEY) => Ok(cycles(2)),
        (OperandMode::Immediate, Operation::EOR) => Ok(cycles(2)),
        (OperandMode::ZeroPage, Operation::EOR) => Ok(cycles(3)),
        (OperandMode::ZeroPageX, Operation::EOR) => Ok(cycles(4)),
        (OperandMode::Absolute, Operation::EOR) => Ok(cycles(4)),
        (OperandMode::AbsoluteX, Operation::EOR) => Ok(cycles_with_extra_cost(4)),
        (OperandMode::AbsoluteY, Operation::EOR) => Ok(cycles_with_extra_cost(4)),
        (OperandMode::IndirectX, Operation::EOR) => Ok(cycles(6)),
        (OperandMode::IndirectY, Operation::EOR) => Ok(cycles_with_extra_cost(5)),
        (OperandMode::ZeroPage, Operation::INC) => Ok(cycles(5)),
        (OperandMode::ZeroPageX, Operation::INC) => Ok(cycles(6)),
        (OperandMode::Absolute, Operation::INC) => Ok(cycles(6)),
        (OperandMode::AbsoluteX, Operation::INC) => Ok(cycles(7)),
        (OperandMode::Implied, Operation::INX) => Ok(cycles(2)),
        (OperandMode::Implied, Operation::INY) => Ok(cycles(2)),
        (OperandMode::Absolute, Operation::JMP) => Ok(cycles(3)),
        (OperandMode::Indirect, Operation::JMP) => Ok(cycles(5)),
        (OperandMode::Absolute, Operation::JSR) => Ok(cycles(6)),
        (OperandMode::Immediate, Operation::LDA) => Ok(cycles(2)),
        (OperandMode::ZeroPage, Operation::LDA) => Ok(cycles(3)),
        (OperandMode::ZeroPageX, Operation::LDA) => Ok(cycles(4)),
        (OperandMode::Absolute, Operation::LDA) => Ok(cycles(4)),
        (OperandMode::AbsoluteX, Operation::LDA) => Ok(cycles_with_extra_cost(4)),
        (OperandMode::AbsoluteY, Operation::LDA) => Ok(cycles_with_extra_cost(4)),
        (OperandMode::IndirectX, Operation::LDA) => Ok(cycles(6)),
        (OperandMode::IndirectY, Operation::LDA) => Ok(cycles_with_extra_cost(5)),
        (OperandMode::Immediate, Operation::LDX) => Ok(cycles(2)),
        (OperandMode::ZeroPage, Operation::LDX) => Ok(cycles(3)),
        (OperandMode::ZeroPageY, Operation::LDX) => Ok(cycles(4)),
        (OperandMode::Absolute, Operation::LDX) => Ok(cycles(4)),
        (OperandMode::AbsoluteY, Operation::LDX) => Ok(cycles_with_extra_cost(4)),
        (OperandMode::Immediate, Operation::LDY) => Ok(cycles(2)),
        (OperandMode::ZeroPage, Operation::LDY) => Ok(cycles(3)),
        (OperandMode::ZeroPageX, Operation::LDY) => Ok(cycles(4)),
        (OperandMode::Absolute, Operation::LDY) => Ok(cycles(4)),
        (OperandMode::AbsoluteX, Operation::LDY) => Ok(cycles_with_extra_cost(4)),
        (OperandMode::Accumulator, Operation::LSR) => Ok(cycles(2)),
        (OperandMode::ZeroPage, Operation::LSR) => Ok(cycles(5)),
        (OperandMode::ZeroPageX, Operation::LSR) => Ok(cycles(6)),
        (OperandMode::Absolute, Operation::LSR) => Ok(cycles(6)),
        (OperandMode::AbsoluteX, Operation::LSR) => Ok(cycles(7)),
        (OperandMode::Implied, Operation::NOP) => Ok(cycles(2)),
        (OperandMode::Immediate, Operation::ORA) => Ok(cycles(2)),
        (OperandMode::ZeroPage, Operation::ORA) => Ok(cycles(3)),
        (OperandMode::ZeroPageX, Operation::ORA) => Ok(cycles(4)),
        (OperandMode::Absolute, Operation::ORA) => Ok(cycles(4)),
        (OperandMode::AbsoluteX, Operation::ORA) => Ok(cycles_with_extra_cost(4)),
        (OperandMode::AbsoluteY, Operation::ORA) => Ok(cycles_with_extra_cost(4)),
        (OperandMode::IndirectX, Operation::ORA) => Ok(cycles(6)),
        (OperandMode::IndirectY, Operation::ORA) => Ok(cycles_with_extra_cost(5)),
        (OperandMode::Implied, Operation::PHA) => Ok(cycles(1)),
        (OperandMode::Implied, Operation::PHP) => Ok(cycles(1)),
        (OperandMode::Implied, Operation::PLA) => Ok(cycles(1)),
        (OperandMode::Implied, Operation::PLP) => Ok(cycles(1)),
        (OperandMode::Accumulator, Operation::ROL) => Ok(cycles(2)),
        (OperandMode::ZeroPage, Operation::ROL) => Ok(cycles(5)),
        (OperandMode::ZeroPageX, Operation::ROL) => Ok(cycles(6)),
        (OperandMode::Absolute, Operation::ROL) => Ok(cycles(6)),
        (OperandMode::AbsoluteX, Operation::ROL) => Ok(cycles(7)),
        (OperandMode::Accumulator, Operation::ROR) => Ok(cycles(2)),
        (OperandMode::ZeroPage, Operation::ROR) => Ok(cycles(5)),
        (OperandMode::ZeroPageX, Operation::ROR) => Ok(cycles(6)),
        (OperandMode::Absolute, Operation::ROR) => Ok(cycles(6)),
        (OperandMode::AbsoluteX, Operation::ROR) => Ok(cycles(7)),
        (OperandMode::Implied, Operation::RTI) => Ok(cycles(6)),
        (OperandMode::Implied, Operation::RTS) => Ok(cycles(6)),
        (OperandMode::Immediate, Operation::SBC) => Ok(cycles(2)),
        (OperandMode::ZeroPage, Operation::SBC) => Ok(cycles(3)),
        (OperandMode::ZeroPageX, Operation::SBC) => Ok(cycles(4)),
        (OperandMode::Absolute, Operation::SBC) => Ok(cycles(4)),
        (OperandMode::AbsoluteX, Operation::SBC) => Ok(cycles_with_extra_cost(4)),
        (OperandMode::AbsoluteY, Operation::SBC) => Ok(cycles_with_extra_cost(4)),
        (OperandMode::IndirectX, Operation::SBC) => Ok(cycles(6)),
        (OperandMode::IndirectY, Operation::SBC) => Ok(cycles_with_extra_cost(5)),
        (OperandMode::Implied, Operation::SEC) => Ok(cycles(2)),
        (OperandMode::Implied, Operation::SED) => Ok(cycles(2)),
        (OperandMode::Implied, Operation::SEI) => Ok(cycles(2)),
        (OperandMode::ZeroPage, Operation::STA) => Ok(cycles(3)),
        (OperandMode::ZeroPageX, Operation::STA) => Ok(cycles(4)),
        (OperandMode::Absolute, Operation::STA) => Ok(cycles(4)),
        (OperandMode::AbsoluteX, Operation::STA) => Ok(cycles(5)),
        (OperandMode::AbsoluteY, Operation::STA) => Ok(cycles(5)),
        (OperandMode::IndirectX, Operation::STA) => Ok(cycles(6)),
        (OperandMode::IndirectY, Operation::STA) => Ok(cycles(6)),
        (OperandMode::ZeroPage, Operation::STX) => Ok(cycles(3)),
        (OperandMode::ZeroPageY, Operation::STX) => Ok(cycles(4)),
        (OperandMode::Absolute, Operation::STX) => Ok(cycles(4)),
        (OperandMode::ZeroPage, Operation::STY) => Ok(cycles(3)),
        (OperandMode::ZeroPageX, Operation::STY) => Ok(cycles(4)),
        (OperandMode::Absolute, Operation::STY) => Ok(cycles(4)),
        (OperandMode::Implied, Operation::TAX) => Ok(cycles(2)),
        (OperandMode::Implied, Operation::TAY) => Ok(cycles(2)),
        (OperandMode::Implied, Operation::TSX) => Ok(cycles(2)),
        (OperandMode::Implied, Operation::TXA) => Ok(cycles(2)),
        (OperandMode::Implied, Operation::TXS) => Ok(cycles(2)),
        (OperandMode::Implied, Operation::TYA) => Ok(cycles(2)),
        _ => Err(CycleError::UnknownInstruction),
    }
}

/// Decoding and encoding are inverse: a byte that decodes successfully
/// encodes back to itself.
pub proof fn lemma_encode_of_decode(bytecode: u8)
    ensures
        spec_decode(bytecode) matches Some(instruction) ==> spec_encode(instruction) == Some(
            bytecode,
        ),
{
}

/// Encoding and decoding are inverse: a pair that the table encodes
/// decodes back to itself.
pub proof fn lemma_decode_of_encode(instruction: Instruction)
    ensures
        spec_encode(instruction) matches Some(bytecode) ==> spec_decode(bytecode) == Some(
            instruction,
        ),
{
}

} // verus!
