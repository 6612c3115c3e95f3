use nestegg::instruction::operand_mode::OperandMode;
use nestegg::instruction::operation::Operation;
use nestegg::instruction::{bytecode_to_instruction, Instruction};

#[test]
fn it_errors_when_instruction_not_found() {
    assert!(bytecode_to_instruction(0x80).is_err());
}

#[test]
fn it_works() {
    assert_eq!(
        bytecode_to_instruction(0x98),
        Ok(Instruction(OperandMode::Implied, Operation::TYA))
    );
}
