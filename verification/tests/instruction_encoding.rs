use nestegg::instruction::operand_mode::OperandMode;
use nestegg::instruction::operation::Operation;
use nestegg::instruction::{instruction_to_bytecode, Instruction};

#[test]
fn instruction_it_works() {
    assert_eq!(
        instruction_to_bytecode(Instruction(OperandMode::Implied, Operation::TYA)),
        Ok(0x98)
    );
}
