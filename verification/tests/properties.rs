use nestegg::instruction::operand_mode::OperandMode;
use nestegg::instruction::operation::Operation;
use nestegg::instruction::{
    bytecode_to_instruction, calculate_cycles, instruction_to_bytecode, Instruction,
};
use nestegg::{ComputerState, ExecError, Operand, StatusFlag, StepError};

const ALL_MODES: [OperandMode; 12] = [
    OperandMode::Absolute,
    OperandMode::AbsoluteX,
    OperandMode::AbsoluteY,
    OperandMode::Accumulator,
    OperandMode::Immediate,
    OperandMode::Implied,
    OperandMode::Indirect,
    OperandMode::IndirectX,
    OperandMode::IndirectY,
    OperandMode::ZeroPage,
    OperandMode::ZeroPageX,
    OperandMode::ZeroPageY,
];

const ALL_OPERATIONS: [Operation; 56] = [
    Operation::ADC,
    Operation::AND,
    Operation::ASL,
    Operation::BCC,
    Operation::BCS,
    Operation::BEQ,
    Operation::BIT,
    Operation::BMI,
    Operation::BNE,
    Operation::BPL,
    Operation::BRK,
    Operation::BVC,
    Operation::BVS,
    Operation::CLC,
    Operation::CLD,
    Operation::CLI,
    Operation::CLV,
    Operation::CMP,
    Operation::CPX,
    Operation::CPY,
    Operation::DEC,
    Operation::DEX,
    Operation::DEY,
    Operation::EOR,
    Operation::INC,
    Operation::INX,
    Operation::INY,
    Operation::JMP,
    Operation::JSR,
    Operation::LDA,
    Operation::LDX,
    Operation::LDY,
    Operation::LSR,
    Operation::NOP,
    Operation::ORA,
    Operation::PHA,
    Operation::PHP,
    Operation::PLA,
    Operation::PLP,
    Operation::ROL,
    Operation::ROR,
    Operation::RTI,
    Operation::RTS,
    Operation::SBC,
    Operation::SEC,
    Operation::SED,
    Operation::SEI,
    Operation::STA,
    Operation::STX,
    Operation::STY,
    Operation::TAX,
    Operation::TAY,
    Operation::TSX,
    Operation::TXA,
    Operation::TXS,
    Operation::TYA,
];

#[test]
fn every_decodable_byte_encodes_back_to_itself() {
    let mut decodable = 0usize;
    for byte in 0..=255u8 {
        if let Ok(instruction) = bytecode_to_instruction(byte) {
            decodable += 1;
            assert_eq!(instruction_to_bytecode(instruction), Ok(byte));
        }
    }
    assert_eq!(decodable, 151);
}

#[test]
fn every_encodable_pair_decodes_back_to_itself() {
    for mode in ALL_MODES {
        for operation in ALL_OPERATIONS {
            let instruction = Instruction(mode, operation);
            if let Ok(byte) = instruction_to_bytecode(instruction) {
                assert_eq!(bytecode_to_instruction(byte), Ok(instruction));
            }
        }
    }
}

#[test]
fn the_table_matches_the_documented_reference_points() {
    let samples = [
        (0x69u8, OperandMode::Immediate, Operation::ADC),
        (0x00, OperandMode::Implied, Operation::BRK),
        (0x4C, OperandMode::Absolute, Operation::JMP),
        (0x6C, OperandMode::Indirect, Operation::JMP),
        (0x20, OperandMode::Absolute, Operation::JSR),
        (0xEA, OperandMode::Implied, Operation::NOP),
        (0xA9, OperandMode::Immediate, Operation::LDA),
        (0x8D, OperandMode::Absolute, Operation::STA),
        (0xB1, OperandMode::IndirectY, Operation::LDA),
        (0x96, OperandMode::ZeroPageY, Operation::STX),
        (0x98, OperandMode::Implied, Operation::TYA),
        (0xF8, OperandMode::Implied, Operation::SED),
    ];
    for (byte, mode, operation) in samples {
        assert_eq!(bytecode_to_instruction(byte), Ok(Instruction(mode, operation)));
    }
}

#[test]
fn adc_flags_follow_the_documented_derivation_exhaustively() {
    let mut state = ComputerState::initialize();
    for a in 0..=255u16 {
        for v in 0..=255u16 {
            for carry_in in [false, true] {
                state.registers.accumulator = a as u8;
                state.set_status_flag(StatusFlag::CARRY, carry_in);
                state
                    .execute_operation(Operation::ADC, Operand::Immediate(v as u8))
                    .unwrap();

                let sum = a + v + carry_in as u16;
                let result = (sum % 256) as u8;
                assert_eq!(state.registers.accumulator, result);
                assert_eq!(state.get_status_flag(StatusFlag::CARRY), sum >= 256);
                assert_eq!(state.get_status_flag(StatusFlag::ZERO), result == 0);
                assert_eq!(state.get_status_flag(StatusFlag::NEGATIVE), result >= 128);
                let expected_overflow =
                    ((v >= 128) == (a >= 128)) && ((result as u16 >= 128) != (v >= 128));
                assert_eq!(state.get_status_flag(StatusFlag::OVERFLOW), expected_overflow);
            }
        }
    }
}

#[test]
fn zero_page_indexed_addressing_stays_below_256() {
    for base in [0x00u8, 0x01, 0x7f, 0x80, 0xff] {
        for offset in [0x00u8, 0x01, 0x10, 0x80, 0xff] {
            let mut state = ComputerState::initialize_from_image(vec![base]);
            state.registers.x = offset;
            let operand = state.fetch_operand(OperandMode::ZeroPageX);
            match operand {
                Operand::Address(addr) => {
                    assert!(addr < 256);
                    assert_eq!(addr, (base as u16 + offset as u16) % 256);
                }
                other => panic!("expected an address operand, got {:?}", other),
            }
        }
    }
}

#[test]
fn stack_pointer_returns_after_256_pushes_and_256_pulls() {
    let mut state = ComputerState::initialize();
    state.registers.stack_pointer = 0x42;
    for i in 0..256 {
        state.push_byte_to_stack(i as u8);
    }
    assert_eq!(state.registers.stack_pointer, 0x42);
    for _ in 0..256 {
        state.pull_byte_from_stack();
    }
    assert_eq!(state.registers.stack_pointer, 0x42);
}

#[test]
fn jsr_and_rts_restore_the_program_counter() {
    let mut state = ComputerState::initialize();
    state.registers.stack_pointer = 0xff;
    state.registers.program_counter = 0x55aa;
    state.execute_operation(Operation::JSR, Operand::Address(0x7777)).unwrap();
    assert_eq!(state.registers.program_counter, 0x7777);
    assert_eq!(state.get_word_from_memory(0x1fe), 0x55aa - 1);
    state.execute_operation(Operation::RTS, Operand::Implied).unwrap();
    assert_eq!(state.registers.program_counter, 0x55aa);
}

#[test]
fn post_indexed_indirect_addressing_indexes_by_y() {
    // One base byte at the program counter points into the zero page,
    // where a little-endian pointer is stored; Y, not X, is then added to
    // the pointer value.
    let mut image = vec![0u8; 64];
    image[0] = 0x10; // operand byte: zero-page pointer location
    image[0x10] = 0x00; // pointer low byte
    image[0x11] = 0x20; // pointer high byte: pointer value 0x2000
    let mut state = ComputerState::initialize_from_image(image);
    state.registers.y = 0x05;
    state.registers.x = 0x99;
    let operand = state.fetch_operand(OperandMode::IndirectY);
    assert_eq!(operand, Operand::Address(0x2005));
    assert_eq!(state.registers.program_counter, 1);
}

#[test]
fn pre_indexed_indirect_addressing_wraps_in_the_zero_page() {
    let mut image = vec![0u8; 256];
    image[0] = 0xf0; // operand byte
    image[0x10] = 0x34; // (0xf0 + 0x20) & 0xff == 0x10 holds the pointer
    image[0x11] = 0x12;
    let mut state = ComputerState::initialize_from_image(image);
    state.registers.x = 0x20;
    let operand = state.fetch_operand(OperandMode::IndirectX);
    assert_eq!(operand, Operand::Address(0x1234));
}

#[test]
fn absolute_indexed_addressing_wraps_modulo_the_address_space() {
    let mut state = ComputerState::initialize_from_image(vec![0xff, 0xff]);
    state.registers.x = 0x10;
    let operand = state.fetch_operand(OperandMode::AbsoluteX);
    assert_eq!(operand, Operand::Address(0x000f));
    assert_eq!(state.registers.program_counter, 2);
}

#[test]
fn memory_reads_beyond_the_image_are_zero() {
    let state = ComputerState::initialize_from_image(vec![7, 8, 9]);
    assert_eq!(state.get_byte_from_memory(2), 9);
    assert_eq!(state.get_byte_from_memory(3), 0);
    assert_eq!(state.get_byte_from_memory(0xffff), 0);
    // Addresses are used modulo 64 K.
    assert_eq!(state.get_byte_from_memory(0x10000), 7);
}

#[test]
fn word_access_wraps_at_the_top_of_memory() {
    let mut state = ComputerState::initialize();
    state.write_byte_to_memory(0xffff, 0x34);
    state.write_byte_to_memory(0x0000, 0x12);
    assert_eq!(state.get_word_from_memory(0xffff), 0x1234);
}

#[test]
fn brk_is_reported_as_unimplemented() {
    let mut state = ComputerState::initialize();
    assert_eq!(
        state.execute_operation(Operation::BRK, Operand::Implied),
        Err(ExecError::Unimplemented)
    );
}

#[test]
fn decimal_mode_arithmetic_is_reported_as_unimplemented() {
    let mut state = ComputerState::initialize();
    state.set_status_flag(StatusFlag::DECIMAL, true);
    state.registers.accumulator = 9;
    assert_eq!(
        state.execute_operation(Operation::ADC, Operand::Immediate(1)),
        Err(ExecError::Unimplemented)
    );
    assert_eq!(
        state.execute_operation(Operation::SBC, Operand::Immediate(1)),
        Err(ExecError::Unimplemented)
    );
    assert_eq!(state.registers.accumulator, 9);
}

#[test]
fn reading_an_implied_operand_is_an_invalid_operand_error() {
    let mut state = ComputerState::initialize();
    assert_eq!(
        state.execute_operation(Operation::ADC, Operand::Implied),
        Err(ExecError::InvalidOperandForOperation)
    );
}

#[test]
fn writing_through_an_immediate_operand_is_an_invalid_operand_error() {
    let mut state = ComputerState::initialize();
    assert_eq!(
        state.execute_operation(Operation::STA, Operand::Immediate(4)),
        Err(ExecError::InvalidOperandForOperation)
    );
}

#[test]
fn jumping_to_a_non_address_operand_is_an_invalid_operand_error() {
    let mut state = ComputerState::initialize();
    assert_eq!(
        state.execute_operation(Operation::JMP, Operand::Immediate(4)),
        Err(ExecError::InvalidOperandForOperation)
    );
    // The failed jump leaves the stack pointer untouched.
    assert_eq!(state.registers.stack_pointer, 0);
}

#[test]
fn stepping_onto_an_illegal_opcode_reports_a_decode_error() {
    let state = ComputerState::initialize_from_image(vec![0x80]);
    match state.step() {
        Err(StepError::Decode(_)) => {}
        other => panic!("expected a decode failure, got {:?}", other),
    }
}

#[test]
fn multiple_steps_reports_how_many_steps_completed() {
    // One NOP executes, then an illegal opcode stops the run.
    let state = ComputerState::initialize_from_image(vec![0xEA, 0x80]);
    let failure = state.multiple_steps(10).unwrap_err();
    assert_eq!(failure.steps_completed, 1);
    match failure.error {
        StepError::Decode(_) => {}
        other => panic!("expected a decode failure, got {:?}", other),
    }
}

#[test]
fn stores_write_registers_without_touching_flags() {
    let mut state = ComputerState::initialize();
    state.registers.accumulator = 0x00;
    state.registers.status = 0x00;
    // Storing zero must not set the Zero flag: stores do not touch flags.
    state.execute_operation(Operation::STA, Operand::Address(0x10)).unwrap();
    assert_eq!(state.get_byte_from_memory(0x10), 0x00);
    assert!(!state.get_status_flag(StatusFlag::ZERO));

    state.registers.x = 0x41;
    state.execute_operation(Operation::STX, Operand::Address(0x11)).unwrap();
    assert_eq!(state.get_byte_from_memory(0x11), 0x41);

    state.registers.y = 0x42;
    state.execute_operation(Operation::STY, Operand::Address(0x12)).unwrap();
    assert_eq!(state.get_byte_from_memory(0x12), 0x42);
}

#[test]
fn transfers_move_values_and_update_zero_and_negative() {
    let mut state = ComputerState::initialize();
    state.registers.accumulator = 0x80;
    state.execute_operation(Operation::TAX, Operand::Implied).unwrap();
    assert_eq!(state.registers.x, 0x80);
    assert!(state.get_status_flag(StatusFlag::NEGATIVE));
    assert!(!state.get_status_flag(StatusFlag::ZERO));

    state.registers.accumulator = 0x00;
    state.execute_operation(Operation::TAY, Operand::Implied).unwrap();
    assert_eq!(state.registers.y, 0x00);
    assert!(state.get_status_flag(StatusFlag::ZERO));

    state.registers.x = 0x07;
    state.execute_operation(Operation::TXA, Operand::Implied).unwrap();
    assert_eq!(state.registers.accumulator, 0x07);

    state.registers.y = 0x09;
    state.execute_operation(Operation::TYA, Operand::Implied).unwrap();
    assert_eq!(state.registers.accumulator, 0x09);

    state.registers.stack_pointer = 0xfd;
    state.execute_operation(Operation::TSX, Operand::Implied).unwrap();
    assert_eq!(state.registers.x, 0xfd);

    state.registers.x = 0x30;
    state.execute_operation(Operation::TXS, Operand::Implied).unwrap();
    assert_eq!(state.registers.stack_pointer, 0x30);
}

#[test]
fn cycle_costs_match_the_reference_timings() {
    let cost = calculate_cycles(&Instruction(OperandMode::Immediate, Operation::ADC)).unwrap();
    assert_eq!(cost.cycles, 2);
    assert!(!cost.page_boundary_costs_extra);

    let cost = calculate_cycles(&Instruction(OperandMode::AbsoluteX, Operation::ADC)).unwrap();
    assert_eq!(cost.cycles, 4);
    assert!(cost.page_boundary_costs_extra);

    let cost = calculate_cycles(&Instruction(OperandMode::Absolute, Operation::JSR)).unwrap();
    assert_eq!(cost.cycles, 6);
    assert!(!cost.page_boundary_costs_extra);

    assert!(calculate_cycles(&Instruction(OperandMode::Implied, Operation::ADC)).is_err());
}

#[test]
fn encoding_an_impossible_pair_is_an_error() {
    assert!(instruction_to_bytecode(Instruction(OperandMode::Implied, Operation::ADC)).is_err());
}

#[test]
fn mnemonic_lookup_requires_the_exact_upper_case_form() {
    assert_eq!(Operation::from_str("ADC"), Some(Operation::ADC));
    assert_eq!(Operation::from_str("TYA"), Some(Operation::TYA));
    assert_eq!(Operation::from_str("adc"), None);
    assert_eq!(Operation::from_str("AdC"), None);
    assert_eq!(Operation::from_str("ADC "), None);
    assert_eq!(Operation::from_str("XYZ"), None);
}
