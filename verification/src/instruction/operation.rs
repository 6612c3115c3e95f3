use vstd::prelude::*;
use vstd::string::StringSliceAdditionalSpecFns;

verus! {

/// The 56 documented 6502 mnemonics.
#[derive(Debug, Copy, Clone, PartialEq, Eq, Structural)]
pub enum Operation {
    ADC, AND, ASL, BCC, BCS, BEQ, BIT, BMI,
    BNE, BPL, BRK, BVC, BVS, CLC, CLD, CLI,
    CLV, CMP, CPX, CPY, DEC, DEX, DEY, EOR,
    INC, INX, INY, JMP, JSR, LDA, LDX, LDY,
    LSR, NOP, ORA, PHA, PHP, PLA, PLP, ROL,
    ROR, RTI, RTS, SBC, SEC, SED, SEI, STA,
    STX, STY, TAX, TAY, TSX, TXA, TXS, TYA,
}

/// ASCII-fold a byte to upper case: the letters `a` to `z` (codes 97 to
/// 122) map to `A` to `Z`, every other byte is left alone.
pub open spec fn spec_ascii_upper(b: u8) -> u8 {
    if 97 <= b && b <= 122 {
        (b - 32) as u8
    } else {
        b
    }
}

/// The operation whose three-letter mnemonic the upper-cased ASCII codes
/// spell, if any.
pub open spec fn spec_operation_of_letters(b0: u8, b1: u8, b2: u8) -> Option<Operation> {
    if b0 == 65 && b1 == 68 && b2 == 67 {
        Some(Operation::ADC)
    } else if b0 == 65 && b1 == 78 && b2 == 68 {
        Some(Operation::AND)
    } else if b0 == 65 && b1 == 83 && b2 == 76 {
        Some(Operation::ASL)
    } else if b0 == 66 && b1 == 67 && b2 == 67 {
        Some(Operation::BCC)
    } else if b0 == 66 && b1 == 67 && b2 == 83 {
        Some(Operation::BCS)
    } else if b0 == 66 && b1 == 69 && b2 == 81 {
        Some(Operation::BEQ)
    } else if b0 == 66 && b1 == 73 && b2 == 84 {
        Some(Operation::BIT)
    } else if b0 == 66 && b1 == 77 && b2 == 73 {
        Some(Operation::BMI)
    } else if b0 == 66 && b1 == 78 && b2 == 69 {
        Some(Operation::BNE)
    } else if b0 == 66 && b1 == 80 && b2 == 76 {
        Some(Operation::BPL)
    } else if b0 == 66 && b1 == 82 && b2 == 75 {
        Some(Operation::BRK)
    } else if b0 == 66 && b1 == 86 && b2 == 67 {
        Some(Operation::BVC)
    } else if b0 == 66 && b1 == 86 && b2 == 83 {
        Some(Operation::BVS)
    } else if b0 == 67 && b1 == 76 && b2 == 67 {
        Some(Operation::CLC)
    } else if b0 == 67 && b1 == 76 && b2 == 68 {
        Some(Operation::CLD)
    } else if b0 == 67 && b1 == 76 && b2 == 73 {
        Some(Operation::CLI)
    } else if b0 == 67 && b1 == 76 && b2 == 86 {
        Some(Operation::CLV)
    } else if b0 == 67 && b1 == 77 && b2 == 80 {
        Some(Operation::CMP)
    } else if b0 == 67 && b1 == 80 && b2 == 88 {
        Some(Operation::CPX)
    } else if b0 == 67 && b1 == 80 && b2 == 89 {
        Some(Operation::CPY)
    } else if b0 == 68 && b1 == 69 && b2 == 67 {
        Some(Operation::DEC)
    } else if b0 == 68 && b1 == 69 && b2 == 88 {
        Some(Operation::DEX)
    } else if b0 == 68 && b1 == 69 && b2 == 89 {
        Some(Operation::DEY)
    } else if b0 == 69 && b1 == 79 && b2 == 82 {
        Some(Operation::EOR)
    } else if b0 == 73 && b1 == 78 && b2 == 67 {
        Some(Operation::INC)
    } else if b0 == 73 && b1 == 78 && b2 == 88 {
        Some(Operation::INX)
    } else if b0 == 73 && b1 == 78 && b2 == 89 {
        Some(Operation::INY)
    } else if b0 == 74 && b1 == 77 && b2 == 80 {
        Some(Operation::JMP)
    } else if b0 == 74 && b1 == 83 && b2 == 82 {
        Some(Operation::JSR)
    } else if b0 == 76 && b1 == 68 && b2 == 65 {
        Some(Operation::LDA)
    } else if b0 == 76 && b1 == 68 && b2 == 88 {
        Some(Operation::LDX)
    } else if b0 == 76 && b1 == 68 && b2 == 89 {
        Some(Operation::LDY)
    } else if b0 == 76 && b1 == 83 && b2 == 82 {
        Some(Operation::LSR)
    } else if b0 == 78 && b1 == 79 && b2 == 80 {
        Some(Operation::NOP)
    } else if b0 == 79 && b1 == 82 && b2 == 65 {
        Some(Operation::ORA)
    } else if b0 == 80 && b1 == 72 && b2 == 65 {
        Some(Operation::PHA)
    } else if b0 == 80 && b1 == 72 && b2 == 80 {
        Some(Operation::PHP)
    } else if b0 == 80 && b1 == 76 && b2 == 65 {
        Some(Operation::PLA)
    } else if b0 == 80 && b1 == 76 && b2 == 80 {
        Some(Operation::PLP)
    } else if b0 == 82 && b1 == 79 && b2 == 76 {
        Some(Operation::ROL)
    } else if b0 == 82 && b1 == 79 && b2 == 82 {
        Some(Operation::ROR)
    } else if b0 == 82 && b1 == 84 && b2 == 73 {
        Some(Operation::RTI)
    } else if b0 == 82 && b1 == 84 && b2 == 83 {
        Some(Operation::RTS)
    } else if b0 == 83 && b1 == 66 && b2 == 67 {
        Some(Operation::SBC)
    } else if b0 == 83 && b1 == 69 && b2 == 67 {
        Some(Operation::SEC)
    } else if b0 == 83 && b1 == 69 && b2 == 68 {
        Some(Operation::SED)
    } else if b0 == 83 && b1 == 69 && b2 == 73 {
        Some(Operation::SEI)
    } else if b0 == 83 && b1 == 84 && b2 == 65 {
        Some(Operation::STA)
    } else if b0 == 83 && b1 == 84 && b2 == 88 {
        Some(Operation::STX)
    } else if b0 == 83 && b1 == 84 && b2 == 89 {
        Some(Operation::STY)
    } else if b0 == 84 && b1 == 65 && b2 == 88 {
        Some(Operation::TAX)
    } else if b0 == 84 && b1 == 65 && b2 == 89 {
        Some(Operation::TAY)
    } else if b0 == 84 && b1 == 83 && b2 == 88 {
        Some(Operation::TSX)
    } else if b0 == 84 && b1 == 88 && b2 == 65 {
        Some(Operation::TXA)
    } else if b0 == 84 && b1 == 88 && b2 == 83 {
        Some(Operation::TXS)
    } else if b0 == 84 && b1 == 89 && b2 == 65 {
        Some(Operation::TYA)
    } else {
        None
    }
}

/// The operation named by `bytes` exactly: three bytes that spell one of
/// the 56 mnemonics in upper case, with no folding applied.
pub open spec fn spec_operation_from_bytes(bytes: Seq<u8>) -> Option<Operation> {
    if bytes.len() == 3 {
        spec_operation_of_letters(bytes[0], bytes[1], bytes[2])
    } else {
        None
    }
}

/// The operation named by `bytes` read case-insensitively: exactly three
/// bytes that, folded to upper case, spell one of the 56 mnemonics. This
/// is the reading the statement parser applies to mnemonic tokens.
pub open spec fn spec_operation_from_bytes_folded(bytes: Seq<u8>) -> Option<Operation> {
    if bytes.len() == 3 {
        spec_operation_of_letters(
            spec_ascii_upper(bytes[0]),
            spec_ascii_upper(bytes[1]),
            spec_ascii_upper(bytes[2]),
        )
    } else {
        None
    }
}

pub(crate) fn ascii_upper(b: u8) -> (r: u8)
    ensures
        r == spec_ascii_upper(b),
{
    if 97 <= b && b <= 122 {
        b - 32
    } else {
        b
    }
}

pub(crate) fn operation_of_letters(b0: u8, b1: u8, b2: u8) -> (r: Option<Operation>)
    ensures
        r == spec_operation_of_letters(b0, b1, b2),
{
    match (b0, b1, b2) {
        (65, 68, 67) => Some(Operation::ADC),
        (65, 78, 68) => Some(Operation::AND),
        (65, 83, 76) => Some(Operation::ASL),
        (66, 67, 67) => Some(Operation::BCC),
        (66, 67, 83) => Some(Operation::BCS),
        (66, 69, 81) => Some(Operation::BEQ),
        (66, 73, 84) => Some(Operation::BIT),
        (66, 77, 73) => Some(Operation::BMI),
        (66, 78, 69) => Some(Operation::BNE),
        (66, 80, 76) => Some(Operation::BPL),
        (66, 82, 75) => Some(Operation::BRK),
        (66, 86, 67) => Some(Operation::BVC),
        (66, 86, 83) => Some(Operation::BVS),
        (67, 76, 67) => Some(Operation::CLC),
        (67, 76, 68) => Some(Operation::CLD),
        (67, 76, 73) => Some(Operation::CLI),
        (67, 76, 86) => Some(Operation::CLV),
        (67, 77, 80) => Some(Operation::CMP),
        (67, 80, 88) => Some(Operation::CPX),
        (67, 80, 89) => Some(Operation::CPY),
        (68, 69, 67) => Some(Operation::DEC),
        (68, 69, 88) => Some(Operation::DEX),
        (68, 69, 89) => Some(Operation::DEY),
        (69, 79, 82) => Some(Operation::EOR),
        (73, 78, 67) => Some(Operation::INC),
        (73, 78, 88) => Some(Operation::INX),
        (73, 78, 89) => Some(Operation::INY),
        (74, 77, 80) => Some(Operation::JMP),
        (74, 83, 82) => Some(Operation::JSR),
        (76, 68, 65) => Some(Operation::LDA),
        (76, 68, 88) => Some(Operation::LDX),
        (76, 68, 89) => Some(Operation::LDY),
        (76, 83, 82) => Some(Operation::LSR),
        (78, 79, 80) => Some(Operation::NOP),
        (79, 82, 65) => Some(Operation::ORA),
        (80, 72, 65) => Some(Operation::PHA),
        (80, 72, 80) => Some(Operation::PHP),
        (80, 76, 65) => Some(Operation::PLA),
        (80, 76, 80) => Some(Operation::PLP),
        (82, 79, 76) => Some(Operation::ROL),
        (82, 79, 82) => Some(Operation::ROR),
        (82, 84, 73) => Some(Operation::RTI),
        (82, 84, 83) => Some(Operation::RTS),
        (83, 66, 67) => Some(Operation::SBC),
        (83, 69, 67) => Some(Operation::SEC),
        (83, 69, 68) => Some(Operation::SED),
        (83, 69, 73) => Some(Operation::SEI),
        (83, 84, 65) => Some(Operation::STA),
        (83, 84, 88) => Some(Operation::STX),
        (83, 84, 89) => Some(Operation::STY),
        (84, 65, 88) => Some(Operation::TAX),
        (84, 65, 89) => Some(Operation::TAY),
        (84, 83, 88) => Some(Operation::TSX),
        (84, 88, 65) => Some(Operation::TXA),
        (84, 88, 83) => Some(Operation::TXS),
        (84, 89, 65) => Some(Operation::TYA),
        _ => None,
    }
}

impl Operation {
    /// Looks a mnemonic up by its exact upper-case spelling; `None` for
    /// any other text, lower-case and padded forms included.
    pub fn from_str(s: &str) -> (r: Option<Operation>)
        ensures
            r == spec_operation_from_bytes(s.spec_bytes()),
    {
        let bytes = s.as_bytes();
        if bytes.len() != 3 {
            return None;
        }
        operation_of_letters(bytes[0], bytes[1], bytes[2])
    }
}

} // verus!
