use nestegg::instruction::operation::Operation;
use nestegg::{ComputerState, Operand, StatusFlag};

fn check_accumulator_op(
    state: &mut ComputerState,
    operation: Operation,
    initial_value: Option<u8>,
    operand_value: Option<u8>,
    expected_value: u8,
    expected_flags: Vec<StatusFlag>,
) {
    match initial_value {
        Some(value) => state.registers.accumulator = value,
        None => (),
    };

    let operand = match operand_value {
        Some(val) => Operand::Immediate(val),
        None => Operand::Accumulator,
    };

    state.execute_operation(operation, operand).unwrap();
    assert_eq!(state.registers.accumulator, expected_value);
    check_status_flags(state, &expected_flags);
}

fn check_status_flags(state: &ComputerState, expected_flags: &Vec<StatusFlag>) {
    let all_flags = vec![
        StatusFlag::CARRY,
        StatusFlag::ZERO,
        StatusFlag::INTERRUPT,
        StatusFlag::DECIMAL,
        StatusFlag::BREAK,
        StatusFlag::RESERVED,
        StatusFlag::OVERFLOW,
        StatusFlag::NEGATIVE,
    ];
    let negative_flags = all_flags.iter().filter(|f| !expected_flags.contains(*f));

    for flag in expected_flags.iter() {
        assert!(state.get_status_flag(*flag), "{:?} should be set", flag);
    }
    for flag in negative_flags {
        assert!(!state.get_status_flag(*flag), "{:?} should not be set", flag);
    }
}

#[test]
fn it_fetches_bytes() {
    const NUM_VALUES: usize = 1024;
    let mut initial_memory = Vec::new();
    for i in 0..NUM_VALUES {
        let masked = (i & 0xff) as u8;
        let inverted = masked ^ 0xff;
        initial_memory.push(inverted);
    }

    let state = ComputerState::initialize_from_image(initial_memory.clone());

    for i in 0..NUM_VALUES {
        assert_eq!(state.get_byte_from_memory(i), initial_memory[i]);
    }
}

#[test]
fn it_fetches_words() {
    const NUM_VALUES: usize = 1024;
    let mut initial_memory = Vec::new();
    let mut expected_memory = Vec::new();
    for i in 0..NUM_VALUES {
        let inverted = i ^ 0xffff;
        let masked_low = (inverted & 0xff) as u8;
        initial_memory.push(masked_low);
        let masked_high = ((inverted >> 8) & 0xff) as u8;
        initial_memory.push(masked_high);

        expected_memory.push(inverted as u16);
    }

    let state = ComputerState::initialize_from_image(initial_memory.clone());

    for i in 0..NUM_VALUES {
        assert_eq!(state.get_word_from_memory(i * 2), expected_memory[i]);
    }
}

#[test]
fn it_executes_nop_without_changing_anything() {
    let mut state = ComputerState::initialize();
    let state_initial_registers = state.registers;

    state
        .execute_operation(Operation::NOP, Operand::Implied)
        .expect("Couldn't execute NOP");

    assert_eq!(state_initial_registers, state.registers);
}

#[test]
fn it_executes_adc() {
    let mut state = ComputerState::initialize();

    check_accumulator_op(&mut state, Operation::ADC, Some(33), Some(24), 33 + 24, vec![]);
    check_accumulator_op(&mut state, Operation::ADC, None, Some(55), 33 + 24 + 55, vec![]);
    check_accumulator_op(&mut state, Operation::ADC, None, Some(200), 56, vec![StatusFlag::CARRY]);
    check_accumulator_op(
        &mut state,
        Operation::ADC,
        None,
        Some(100),
        157,
        vec![StatusFlag::NEGATIVE, StatusFlag::OVERFLOW],
    );
    check_accumulator_op(
        &mut state,
        Operation::ADC,
        None,
        Some(99),
        0,
        vec![StatusFlag::CARRY, StatusFlag::ZERO],
    );
    check_accumulator_op(
        &mut state,
        Operation::ADC,
        Some(0x80),
        Some(0x80),
        0x01,
        vec![StatusFlag::CARRY, StatusFlag::OVERFLOW],
    );
}

#[test]
fn it_executes_and() {
    let mut state = ComputerState::initialize();

    check_accumulator_op(&mut state, Operation::AND, Some(0xFF), Some(0x55), 0xff & 0x55, vec![]);
    check_accumulator_op(
        &mut state,
        Operation::AND,
        Some(0xaa),
        Some(0xf0),
        0xaa & 0xf0,
        vec![StatusFlag::NEGATIVE],
    );
    check_accumulator_op(&mut state, Operation::AND, Some(0x45), Some(0x0f), 0x45 & 0x0f, vec![]);
    check_accumulator_op(
        &mut state,
        Operation::AND,
        Some(0x55),
        Some(0xa0),
        0x55 & 0xa0,
        vec![StatusFlag::ZERO],
    );
    check_accumulator_op(&mut state, Operation::AND, Some(0x01), Some(0x01), 0x01 & 0x01, vec![]);
}

#[test]
fn it_executes_asl() {
    let mut state = ComputerState::initialize();

    check_accumulator_op(
        &mut state,
        Operation::ASL,
        Some(0xff),
        None,
        0xfe,
        vec![StatusFlag::NEGATIVE, StatusFlag::CARRY],
    );
    check_accumulator_op(
        &mut state,
        Operation::ASL,
        Some(0x55),
        None,
        0xaa,
        vec![StatusFlag::NEGATIVE],
    );
    check_accumulator_op(
        &mut state,
        Operation::ASL,
        Some(0x80),
        None,
        0x00,
        vec![StatusFlag::ZERO, StatusFlag::CARRY],
    );
    check_accumulator_op(&mut state, Operation::ASL, Some(0x25), None, 0x4a, vec![]);
}

#[test]
fn it_branches() {
    // Branch targets follow the canonical rule: the program counter at
    // execute time is the address after the two-byte branch instruction,
    // and a taken branch adds the signed displacement to it.
    let mut state = ComputerState::initialize();

    state.set_status_flag(StatusFlag::OVERFLOW, false);
    state
        .execute_operation(Operation::BVS, Operand::Immediate(0x55))
        .expect("Couldn't execute BVS");
    assert_eq!(state.registers.program_counter, 0x00);

    state
        .execute_operation(Operation::BVC, Operand::Immediate(0x55))
        .expect("Couldn't execute BVC");
    assert_eq!(state.registers.program_counter, 0x55);

    state.set_status_flag(StatusFlag::OVERFLOW, true);
    state
        .execute_operation(Operation::BVS, Operand::Immediate(0x55))
        .expect("Couldn't execute BVS");
    assert_eq!(state.registers.program_counter, 0xaa);

    state.set_status_flag(StatusFlag::CARRY, true);
    state
        .execute_operation(Operation::BCS, Operand::Immediate(0xa0))
        .expect("Couldn't execute BCS");
    assert_eq!(state.registers.program_counter, 0x4a);

    state.set_status_flag(StatusFlag::CARRY, false);
    state
        .execute_operation(Operation::BCS, Operand::Immediate(0xa0))
        .expect("Couldn't execute BCS");
    assert_eq!(state.registers.program_counter, 0x4a);

    state
        .execute_operation(Operation::BCC, Operand::Immediate(0xf0))
        .expect("Couldn't execute BCC");
    assert_eq!(state.registers.program_counter, 0x3a);

    state.registers.status = 0x00;
    state.set_status_flag(StatusFlag::ZERO, true);
    state
        .execute_operation(Operation::BEQ, Operand::Immediate(0xf0))
        .expect("Couldn't execute BEQ");
    assert_eq!(state.registers.program_counter, 0x2a);

    state.registers.status = 0xff;
    state.set_status_flag(StatusFlag::ZERO, false);
    state
        .execute_operation(Operation::BNE, Operand::Immediate(0x55))
        .expect("Couldn't execute BNE");
    assert_eq!(state.registers.program_counter, 0x7f);

    state.registers.status = 0x00;
    state.set_status_flag(StatusFlag::NEGATIVE, true);
    state
        .execute_operation(Operation::BMI, Operand::Immediate(0xf0))
        .expect("Couldn't execute BMI");
    assert_eq!(state.registers.program_counter, 0x6f);

    state.registers.status = 0xff;
    state.set_status_flag(StatusFlag::NEGATIVE, false);
    state
        .execute_operation(Operation::BPL, Operand::Immediate(0xf0))
        .expect("Couldn't execute BPL");
    assert_eq!(state.registers.program_counter, 0x5f);
}

#[test]
fn it_executes_bit() {
    let mut state = ComputerState::initialize();

    check_accumulator_op(
        &mut state,
        Operation::BIT,
        Some(0x01),
        Some(0x55),
        0x01,
        vec![StatusFlag::OVERFLOW],
    );
    check_accumulator_op(
        &mut state,
        Operation::BIT,
        Some(0x0f),
        Some(0xf0),
        0x0f,
        vec![StatusFlag::NEGATIVE, StatusFlag::OVERFLOW, StatusFlag::ZERO],
    );
}

#[test]
fn it_executes_flag_sets_and_clears() {
    let mut state = ComputerState::initialize_from_image(vec![0; 1024]);
    state.registers.status = 0xff;
    let mut expected_flags = vec![
        StatusFlag::ZERO,
        StatusFlag::BREAK,
        StatusFlag::RESERVED,
        StatusFlag::NEGATIVE,
        StatusFlag::CARRY,
        StatusFlag::DECIMAL,
        StatusFlag::OVERFLOW,
        StatusFlag::INTERRUPT,
    ];

    expected_flags.pop();
    state.execute_operation(Operation::CLI, Operand::Implied).unwrap();
    check_status_flags(&state, &expected_flags);
    expected_flags.pop();
    state.execute_operation(Operation::CLV, Operand::Implied).unwrap();
    check_status_flags(&state, &expected_flags);

    expected_flags.pop();
    state.execute_operation(Operation::CLD, Operand::Implied).unwrap();
    check_status_flags(&state, &expected_flags);

    expected_flags.pop();
    state.execute_operation(Operation::CLC, Operand::Implied).unwrap();
    check_status_flags(&state, &expected_flags);

    expected_flags.push(StatusFlag::CARRY);
    state.execute_operation(Operation::SEC, Operand::Implied).unwrap();
    check_status_flags(&state, &expected_flags);

    expected_flags.push(StatusFlag::DECIMAL);
    state.execute_operation(Operation::SED, Operand::Implied).unwrap();
    check_status_flags(&state, &expected_flags);

    expected_flags.push(StatusFlag::INTERRUPT);
    state.execute_operation(Operation::SEI, Operand::Implied).unwrap();
    check_status_flags(&state, &expected_flags)
}

#[test]
fn it_executes_compares() {
    let mut state = ComputerState::initialize();

    state.registers.accumulator = 0x10;
    state.registers.x = 0xf0;
    state.registers.y = 0xff;

    state
        .execute_operation(Operation::CMP, Operand::Immediate(0x00))
        .expect("Couldn't execute CMP");
    assert!(!state.get_status_flag(StatusFlag::NEGATIVE));
    assert!(!state.get_status_flag(StatusFlag::ZERO));
    assert!(state.get_status_flag(StatusFlag::CARRY));
    state
        .execute_operation(Operation::CMP, Operand::Immediate(0x80))
        .expect("Couldn't execute CMP");
    assert!(state.get_status_flag(StatusFlag::NEGATIVE));
    assert!(!state.get_status_flag(StatusFlag::ZERO));
    assert!(!state.get_status_flag(StatusFlag::CARRY));

    state
        .execute_operation(Operation::CPX, Operand::Immediate(0x00))
        .expect("Couldn't execute CPX");
    assert!(state.get_status_flag(StatusFlag::NEGATIVE));
    assert!(!state.get_status_flag(StatusFlag::ZERO));
    assert!(state.get_status_flag(StatusFlag::CARRY));
    state
        .execute_operation(Operation::CPX, Operand::Immediate(0x80))
        .expect("Couldn't execute CPX");
    assert!(!state.get_status_flag(StatusFlag::NEGATIVE));
    assert!(!state.get_status_flag(StatusFlag::ZERO));
    assert!(state.get_status_flag(StatusFlag::CARRY));
    state
        .execute_operation(Operation::CPX, Operand::Immediate(0xf0))
        .expect("Couldn't execute CPX");
    assert!(!state.get_status_flag(StatusFlag::NEGATIVE));
    assert!(state.get_status_flag(StatusFlag::ZERO));
    assert!(state.get_status_flag(StatusFlag::CARRY));

    state
        .execute_operation(Operation::CPY, Operand::Immediate(0x00))
        .expect("Couldn't execute CPY");
    assert!(state.get_status_flag(StatusFlag::NEGATIVE));
    assert!(!state.get_status_flag(StatusFlag::ZERO));
    assert!(state.get_status_flag(StatusFlag::CARRY));
    state
        .execute_operation(Operation::CPY, Operand::Immediate(0xfe))
        .expect("Couldn't execute CPY");
    assert!(!state.get_status_flag(StatusFlag::NEGATIVE));
    assert!(!state.get_status_flag(StatusFlag::ZERO));
    assert!(state.get_status_flag(StatusFlag::CARRY));
    state
        .execute_operation(Operation::CPY, Operand::Immediate(0xff))
        .expect("Couldn't execute CPY");
    assert!(!state.get_status_flag(StatusFlag::NEGATIVE));
    assert!(state.get_status_flag(StatusFlag::ZERO));
    assert!(state.get_status_flag(StatusFlag::CARRY));
}

#[test]
fn it_executes_decrement() {
    let mut state = ComputerState::initialize_from_image(vec![3]);
    state.registers.x = 4;
    state.registers.y = 2;

    state.execute_operation(Operation::DEC, Operand::Address(0)).unwrap();
    assert!(!state.get_status_flag(StatusFlag::ZERO));
    assert!(!state.get_status_flag(StatusFlag::NEGATIVE));
    assert_eq!(state.get_byte_from_memory(0), 2);

    state.execute_operation(Operation::DEC, Operand::Address(0)).unwrap();
    assert!(!state.get_status_flag(StatusFlag::ZERO));
    assert!(!state.get_status_flag(StatusFlag::NEGATIVE));
    assert_eq!(state.get_byte_from_memory(0), 1);

    state.execute_operation(Operation::DEC, Operand::Address(0)).unwrap();
    assert!(state.get_status_flag(StatusFlag::ZERO));
    assert!(!state.get_status_flag(StatusFlag::NEGATIVE));
    assert_eq!(state.get_byte_from_memory(0), 0);

    state.execute_operation(Operation::DEC, Operand::Address(0)).unwrap();
    assert!(!state.get_status_flag(StatusFlag::ZERO));
    assert!(state.get_status_flag(StatusFlag::NEGATIVE));
    assert_eq!(state.get_byte_from_memory(0), 255);

    state.execute_operation(Operation::DEX, Operand::Implied).unwrap();
    assert!(!state.get_status_flag(StatusFlag::ZERO));
    assert!(!state.get_status_flag(StatusFlag::NEGATIVE));
    assert_eq!(state.registers.x, 3);

    state.execute_operation(Operation::DEX, Operand::Implied).unwrap();
    state.execute_operation(Operation::DEX, Operand::Implied).unwrap();
    state.execute_operation(Operation::DEX, Operand::Implied).unwrap();
    assert!(state.get_status_flag(StatusFlag::ZERO));
    assert!(!state.get_status_flag(StatusFlag::NEGATIVE));
    assert_eq!(state.registers.x, 0);

    state.execute_operation(Operation::DEX, Operand::Implied).unwrap();
    state.execute_operation(Operation::DEX, Operand::Implied).unwrap();
    state.execute_operation(Operation::DEX, Operand::Implied).unwrap();
    assert!(!state.get_status_flag(StatusFlag::ZERO));
    assert!(state.get_status_flag(StatusFlag::NEGATIVE));
    assert_eq!(state.registers.x, 253);

    state.execute_operation(Operation::DEY, Operand::Implied).unwrap();
    assert!(!state.get_status_flag(StatusFlag::ZERO));
    assert!(!state.get_status_flag(StatusFlag::NEGATIVE));
    assert_eq!(state.registers.y, 1);

    state.execute_operation(Operation::DEY, Operand::Implied).unwrap();
    assert!(state.get_status_flag(StatusFlag::ZERO));
    assert!(!state.get_status_flag(StatusFlag::NEGATIVE));
    assert_eq!(state.registers.y, 0);

    state.execute_operation(Operation::DEY, Operand::Implied).unwrap();
    assert!(!state.get_status_flag(StatusFlag::ZERO));
    assert!(state.get_status_flag(StatusFlag::NEGATIVE));
    assert_eq!(state.registers.y, 255);
}

#[test]
fn it_executes_eor() {
    let mut state = ComputerState::initialize();

    check_accumulator_op(
        &mut state,
        Operation::EOR,
        Some(0xff),
        Some(0x55),
        0xaa,
        vec![StatusFlag::NEGATIVE],
    );
    check_accumulator_op(
        &mut state,
        Operation::EOR,
        Some(0x55),
        Some(0x55),
        0x00,
        vec![StatusFlag::ZERO],
    );
    check_accumulator_op(&mut state, Operation::EOR, Some(0xff), Some(0xf0), 0x0f, vec![]);
    check_accumulator_op(
        &mut state,
        Operation::EOR,
        Some(0x0f),
        Some(0xf0),
        0xff,
        vec![StatusFlag::NEGATIVE],
    );
    check_accumulator_op(&mut state, Operation::EOR, Some(0xaa), Some(0xa0), 0x0a, vec![]);
}

#[test]
fn it_executes_increment() {
    let mut state = ComputerState::initialize_from_image(vec![254]);
    state.registers.x = 253;
    state.registers.y = 252;

    state.execute_operation(Operation::INC, Operand::Address(0)).unwrap();
    assert!(!state.get_status_flag(StatusFlag::ZERO));
    assert!(state.get_status_flag(StatusFlag::NEGATIVE));
    assert_eq!(state.get_byte_from_memory(0), 255);

    state.execute_operation(Operation::INC, Operand::Address(0)).unwrap();
    assert!(state.get_status_flag(StatusFlag::ZERO));
    assert!(!state.get_status_flag(StatusFlag::NEGATIVE));
    assert_eq!(state.get_byte_from_memory(0), 0);

    state.execute_operation(Operation::INC, Operand::Address(0)).unwrap();
    assert!(!state.get_status_flag(StatusFlag::ZERO));
    assert!(!state.get_status_flag(StatusFlag::NEGATIVE));
    assert_eq!(state.get_byte_from_memory(0), 1);

    state.execute_operation(Operation::INX, Operand::Implied).unwrap();
    assert!(!state.get_status_flag(StatusFlag::ZERO));
    assert!(state.get_status_flag(StatusFlag::NEGATIVE));
    assert_eq!(state.registers.x, 254);

    state.execute_operation(Operation::INX, Operand::Implied).unwrap();
    state.execute_operation(Operation::INX, Operand::Implied).unwrap();
    assert!(state.get_status_flag(StatusFlag::ZERO));
    assert!(!state.get_status_flag(StatusFlag::NEGATIVE));
    assert_eq!(state.registers.x, 0);

    state.execute_operation(Operation::INX, Operand::Implied).unwrap();
    state.execute_operation(Operation::INX, Operand::Implied).unwrap();
    state.execute_operation(Operation::INX, Operand::Implied).unwrap();
    assert!(!state.get_status_flag(StatusFlag::ZERO));
    assert!(!state.get_status_flag(StatusFlag::NEGATIVE));
    assert_eq!(state.registers.x, 3);

    state.execute_operation(Operation::INY, Operand::Implied).unwrap();
    assert!(!state.get_status_flag(StatusFlag::ZERO));
    assert!(state.get_status_flag(StatusFlag::NEGATIVE));
    assert_eq!(state.registers.y, 253);

    state.execute_operation(Operation::INY, Operand::Implied).unwrap();
    state.execute_operation(Operation::INY, Operand::Implied).unwrap();
    state.execute_operation(Operation::INY, Operand::Implied).unwrap();
    assert!(state.get_status_flag(StatusFlag::ZERO));
    assert!(!state.get_status_flag(StatusFlag::NEGATIVE));
    assert_eq!(state.registers.y, 0);

    state.execute_operation(Operation::INY, Operand::Implied).unwrap();
    state.execute_operation(Operation::INY, Operand::Implied).unwrap();
    assert!(!state.get_status_flag(StatusFlag::ZERO));
    assert!(!state.get_status_flag(StatusFlag::NEGATIVE));
    assert_eq!(state.registers.y, 2);
}

#[test]
fn in_executes_jump() {
    let mut state = ComputerState::initialize();
    state.registers.stack_pointer = 0xff;

    state.execute_operation(Operation::JMP, Operand::Address(0x55aa)).unwrap();
    assert_eq!(state.registers.program_counter, 0x55aa);

    state.execute_operation(Operation::JSR, Operand::Address(0x7777)).unwrap();
    assert_eq!(state.registers.program_counter, 0x7777);
    assert_eq!(state.registers.stack_pointer, 0xfd);
    assert_eq!(state.pull_word_from_stack(), 0x55aa - 1);
}

#[test]
fn it_executes_loads() {
    let mut state = ComputerState::initialize();

    state.execute_operation(Operation::LDA, Operand::Immediate(0x55)).unwrap();
    assert_eq!(state.registers.accumulator, 0x55);
    assert!(!state.get_status_flag(StatusFlag::ZERO));
    assert!(!state.get_status_flag(StatusFlag::NEGATIVE));

    state.execute_operation(Operation::LDX, Operand::Immediate(0x80)).unwrap();
    assert_eq!(state.registers.x, 0x80);
    assert!(!state.get_status_flag(StatusFlag::ZERO));
    assert!(state.get_status_flag(StatusFlag::NEGATIVE));

    state.execute_operation(Operation::LDY, Operand::Immediate(0x00)).unwrap();
    assert_eq!(state.registers.y, 0x00);
    assert!(state.get_status_flag(StatusFlag::ZERO));
    assert!(!state.get_status_flag(StatusFlag::NEGATIVE));
}

#[test]
fn it_executes_lsr() {
    let mut state = ComputerState::initialize();

    check_accumulator_op(
        &mut state,
        Operation::LSR,
        Some(0xff),
        None,
        0x7f,
        vec![StatusFlag::CARRY],
    );
    check_accumulator_op(
        &mut state,
        Operation::LSR,
        Some(0x00),
        None,
        0x00,
        vec![StatusFlag::ZERO],
    );
    check_accumulator_op(
        &mut state,
        Operation::LSR,
        Some(0x01),
        None,
        0x00,
        vec![StatusFlag::ZERO, StatusFlag::CARRY],
    );
    check_accumulator_op(&mut state, Operation::LSR, Some(0x92), None, 0x49, vec![]);
}

#[test]
fn it_executes_ora() {
    let mut state = ComputerState::initialize();

    check_accumulator_op(
        &mut state,
        Operation::ORA,
        Some(0x00),
        Some(0x00),
        0x00,
        vec![StatusFlag::ZERO],
    );
    check_accumulator_op(&mut state, Operation::ORA, Some(0x01), Some(0x00), 0x01, vec![]);
    check_accumulator_op(
        &mut state,
        Operation::ORA,
        Some(0xf0),
        Some(0x0e),
        0xfe,
        vec![StatusFlag::NEGATIVE],
    );
    check_accumulator_op(
        &mut state,
        Operation::ORA,
        Some(0x0f),
        Some(0xaa),
        0xaf,
        vec![StatusFlag::NEGATIVE],
    );
    check_accumulator_op(&mut state, Operation::ORA, Some(0x32), Some(0x44), 0x76, vec![]);
}

#[test]
fn it_executes_pushes_and_pulls() {
    let mut state = ComputerState::initialize();
    state.registers.stack_pointer = 0xff;

    state.registers.accumulator = 0x00;
    state.execute_operation(Operation::PHA, Operand::Implied).unwrap();
    assert_eq!(state.get_byte_from_memory(0x1ff), 0x00);
    assert_eq!(state.registers.stack_pointer, 0xfe);

    state.registers.status = 0x55;
    state.execute_operation(Operation::PHP, Operand::Implied).unwrap();
    assert_eq!(state.get_byte_from_memory(0x1fe), 0x55);
    assert_eq!(state.registers.stack_pointer, 0xfd);

    state.registers.accumulator = 0x43;
    state.execute_operation(Operation::PHA, Operand::Implied).unwrap();
    assert_eq!(state.get_byte_from_memory(0x1fd), 0x43);
    assert_eq!(state.registers.stack_pointer, 0xfc);

    state.registers.accumulator = 0x00;
    state.execute_operation(Operation::PLA, Operand::Implied).unwrap();
    assert_eq!(state.registers.accumulator, 0x43);
    assert!(!state.get_status_flag(StatusFlag::NEGATIVE));
    assert!(!state.get_status_flag(StatusFlag::ZERO));

    state.execute_operation(Operation::PLP, Operand::Implied).unwrap();
    assert_eq!(state.registers.status, 0x55);

    state.execute_operation(Operation::PLA, Operand::Implied).unwrap();
    assert_eq!(state.registers.accumulator, 0x00);
    assert!(!state.get_status_flag(StatusFlag::NEGATIVE));
    assert!(state.get_status_flag(StatusFlag::ZERO));
}

#[test]
fn it_executes_rotates() {
    let mut state = ComputerState::initialize();

    check_accumulator_op(
        &mut state,
        Operation::ROL,
        Some(0x88),
        None,
        0x10,
        vec![StatusFlag::CARRY],
    );
    check_accumulator_op(&mut state, Operation::ROL, Some(0x3a), None, 0x75, vec![]);
    check_accumulator_op(
        &mut state,
        Operation::ROL,
        Some(0x80),
        None,
        0x00,
        vec![StatusFlag::ZERO, StatusFlag::CARRY],
    );
    check_accumulator_op(
        &mut state,
        Operation::ROL,
        Some(0xf0),
        None,
        0xe1,
        vec![StatusFlag::NEGATIVE, StatusFlag::CARRY],
    );

    check_accumulator_op(
        &mut state,
        Operation::ROR,
        Some(0xf2),
        None,
        0xf9,
        vec![StatusFlag::NEGATIVE],
    );
    check_accumulator_op(
        &mut state,
        Operation::ROR,
        Some(0x00),
        None,
        0x00,
        vec![StatusFlag::ZERO],
    );
    check_accumulator_op(
        &mut state,
        Operation::ROR,
        Some(0x03),
        None,
        0x01,
        vec![StatusFlag::CARRY],
    );
    check_accumulator_op(
        &mut state,
        Operation::ROR,
        Some(0x01),
        None,
        0x80,
        vec![StatusFlag::NEGATIVE, StatusFlag::CARRY],
    );
}

#[test]
fn it_executes_returns() {
    let mut state = ComputerState::initialize();

    state.push_word_to_stack(0xdead);
    state.push_byte_to_stack(0x57);
    state.push_word_to_stack(0xbeef);

    state.execute_operation(Operation::RTS, Operand::Implied).unwrap();
    assert_eq!(state.registers.program_counter, 0xbef0);

    state.execute_operation(Operation::RTI, Operand::Implied).unwrap();
    assert_eq!(state.registers.program_counter, 0xdead);
    assert_eq!(state.registers.status, 0x57);
}

#[test]
fn it_executes_sbc() {
    let mut state = ComputerState::initialize();
    state.set_status_flag(StatusFlag::CARRY, true);

    check_accumulator_op(
        &mut state,
        Operation::SBC,
        Some(120),
        Some(30),
        90,
        vec![StatusFlag::CARRY],
    );
    check_accumulator_op(&mut state, Operation::SBC, None, Some(25), 65, vec![StatusFlag::CARRY]);
    check_accumulator_op(
        &mut state,
        Operation::SBC,
        None,
        Some(65 + 46),
        210,
        vec![StatusFlag::NEGATIVE],
    );
    check_accumulator_op(&mut state, Operation::SBC, None, Some(200), 9, vec![StatusFlag::CARRY]);
    check_accumulator_op(
        &mut state,
        Operation::SBC,
        None,
        Some(9),
        0,
        vec![StatusFlag::CARRY, StatusFlag::ZERO],
    );
    check_accumulator_op(
        &mut state,
        Operation::SBC,
        Some(10),
        Some(128),
        138,
        vec![StatusFlag::NEGATIVE, StatusFlag::OVERFLOW],
    );
}

#[test]
fn it_sets_status_flags() {
    let mut state = ComputerState::initialize();
    state.registers.status = 0b00110011;
    state.set_status_flag(StatusFlag::ZERO, false);

    assert_eq!(state.registers.status, 0b00110001);
}

#[test]
fn it_gets_status_flags() {
    let mut state = ComputerState::initialize();
    state.registers.status = 0b00110011;

    assert_eq!(state.get_status_flag(StatusFlag::ZERO), true);
    assert_eq!(state.get_status_flag(StatusFlag::NEGATIVE), false);
}
