use rustifzm::zcpu::instructions::{InstructionForm, InstructionOperand, Operation};
use rustifzm::zcpu::opcodes::ZOpcode;
use rustifzm::zmemory::ZMemory;
use rustifzm::{ZMachineVersion, ZmError};

#[test]
fn test_form_selection_is_decided_by_the_first_byte_and_version() {
    // the extended marker byte selects the extended form exactly from version 5
    assert_eq!(
        InstructionForm::from_opcode(0xBE, ZMachineVersion::V5),
        InstructionForm::Extended
    );
    assert_eq!(
        InstructionForm::from_opcode(0xBE, ZMachineVersion::V8),
        InstructionForm::Extended
    );
    // before version 5 its top two bits (10) select the short form
    assert_eq!(
        InstructionForm::from_opcode(0xBE, ZMachineVersion::V4),
        InstructionForm::Short
    );
    assert_eq!(
        InstructionForm::from_opcode(0xBE, ZMachineVersion::V1),
        InstructionForm::Short
    );
    // top bits 11: variable form, 10: short form, else long form
    assert_eq!(
        InstructionForm::from_opcode(0xC5, ZMachineVersion::V1),
        InstructionForm::Variable
    );
    assert_eq!(
        InstructionForm::from_opcode(0x85, ZMachineVersion::V3),
        InstructionForm::Short
    );
    assert_eq!(
        InstructionForm::from_opcode(0x25, ZMachineVersion::V3),
        InstructionForm::Long
    );
    assert_eq!(
        InstructionForm::from_opcode(0x00, ZMachineVersion::V8),
        InstructionForm::Long
    );
}

#[test]
fn test_decode_long_form_two_small_operands() {
    let memory = ZMemory::from_story_bytes(vec![0x14, 0x05, 0x07]);
    let mut pc: u16 = 0;
    let op = Operation::decoded(ZMachineVersion::V3, &memory, &mut pc).unwrap();
    assert_eq!(op.form, InstructionForm::Long);
    assert_eq!(op.opcode_number, 0x14);
    assert_eq!(
        op.operands,
        vec![
            InstructionOperand::ConstantSmall(0x05),
            InstructionOperand::ConstantSmall(0x07),
        ]
    );
    assert_eq!(pc, 3);
}

#[test]
fn test_decode_long_form_variable_operands() {
    // bits 6 and 5 mark each operand as a variable reference
    let memory = ZMemory::from_story_bytes(vec![0x74, 0x01, 0x10]);
    let mut pc: u16 = 0;
    let op = Operation::decoded(ZMachineVersion::V3, &memory, &mut pc).unwrap();
    assert_eq!(op.form, InstructionForm::Long);
    assert_eq!(op.opcode_number, 0x14);
    assert_eq!(
        op.operands,
        vec![
            InstructionOperand::Variable(0x01),
            InstructionOperand::Variable(0x10),
        ]
    );
    assert_eq!(pc, 3);
}

#[test]
fn test_decode_short_form_one_large_operand() {
    let memory = ZMemory::from_story_bytes(vec![0x80, 0x12, 0x34]);
    let mut pc: u16 = 0;
    let op = Operation::decoded(ZMachineVersion::V3, &memory, &mut pc).unwrap();
    assert_eq!(op.form, InstructionForm::Short);
    assert_eq!(op.opcode_number, 0);
    assert_eq!(op.operands, vec![InstructionOperand::ConstantLarge(0x1234)]);
    assert_eq!(pc, 3);
}

#[test]
fn test_decode_short_form_zero_operands() {
    let memory = ZMemory::from_story_bytes(vec![0xB0]);
    let mut pc: u16 = 0;
    let op = Operation::decoded(ZMachineVersion::V3, &memory, &mut pc).unwrap();
    assert_eq!(op.form, InstructionForm::Short);
    assert_eq!(op.opcode_number, 0);
    assert_eq!(op.operands, vec![]);
    assert_eq!(pc, 1);
    assert_eq!(ZOpcode::from_operation(&op), Some(ZOpcode::OP0_176));

    let memory = ZMemory::from_story_bytes(vec![0xB1]);
    let mut pc: u16 = 0;
    let op = Operation::decoded(ZMachineVersion::V3, &memory, &mut pc).unwrap();
    assert_eq!(ZOpcode::from_operation(&op), Some(ZOpcode::OP0_177));
}

#[test]
fn test_decode_variable_form_with_types_byte() {
    // types byte 0b00_01_10_11: large, small, variable, omitted
    let memory = ZMemory::from_story_bytes(vec![0xE0, 0x1B, 0xAB, 0xCD, 0x12, 0x34]);
    let mut pc: u16 = 0;
    let op = Operation::decoded(ZMachineVersion::V3, &memory, &mut pc).unwrap();
    assert_eq!(op.form, InstructionForm::Variable);
    assert_eq!(op.opcode_number, 0);
    assert_eq!(
        op.operands,
        vec![
            InstructionOperand::ConstantLarge(0xABCD),
            InstructionOperand::ConstantSmall(0x12),
            InstructionOperand::Variable(0x34),
        ]
    );
    assert_eq!(pc, 6);
}

#[test]
fn test_decode_variable_form_omitted_cuts_the_list() {
    // an omitted field ends the operand list even mid-byte
    let memory = ZMemory::from_story_bytes(vec![0xE0, 0x7F, 0x09]);
    let mut pc: u16 = 0;
    let op = Operation::decoded(ZMachineVersion::V3, &memory, &mut pc).unwrap();
    assert_eq!(op.operands, vec![InstructionOperand::ConstantSmall(0x09)]);
    assert_eq!(pc, 3);
}

#[test]
fn test_decode_double_variable_call_reads_two_types_bytes() {
    // the long-call opcode 12 with bit 5 set carries eight type fields
    let memory =
        ZMemory::from_story_bytes(vec![0xEC, 0x55, 0x5F, 0x01, 0x02, 0x03, 0x04, 0x05, 0x06]);
    let mut pc: u16 = 0;
    let op = Operation::decoded(ZMachineVersion::V5, &memory, &mut pc).unwrap();
    assert_eq!(op.form, InstructionForm::Variable);
    assert_eq!(op.opcode_number, 12);
    assert_eq!(
        op.operands,
        vec![
            InstructionOperand::ConstantSmall(0x01),
            InstructionOperand::ConstantSmall(0x02),
            InstructionOperand::ConstantSmall(0x03),
            InstructionOperand::ConstantSmall(0x04),
            InstructionOperand::ConstantSmall(0x05),
            InstructionOperand::ConstantSmall(0x06),
        ]
    );
    assert_eq!(pc, 9);
}

#[test]
fn test_decode_extended_form_from_version_5() {
    // 0xBE, then the opcode number, then a types byte: small, variable
    let memory = ZMemory::from_story_bytes(vec![0xBE, 0x09, 0x6F, 0x11, 0x22]);
    let mut pc: u16 = 0;
    let op = Operation::decoded(ZMachineVersion::V5, &memory, &mut pc).unwrap();
    assert_eq!(op.form, InstructionForm::Extended);
    assert_eq!(op.opcode_number, 0x09);
    assert_eq!(
        op.operands,
        vec![
            InstructionOperand::ConstantSmall(0x11),
            InstructionOperand::Variable(0x22),
        ]
    );
    assert_eq!(pc, 5);
}

#[test]
fn test_decode_past_the_end_is_an_out_of_bounds_fault() {
    let memory = ZMemory::from_story_bytes(vec![]);
    let mut pc: u16 = 0;
    assert_eq!(
        Operation::decoded(ZMachineVersion::V3, &memory, &mut pc).unwrap_err(),
        ZmError::MemoryInvalidAccess(0)
    );
    assert_eq!(pc, 0);
    // the opcode byte is there but its large operand is cut short
    let memory = ZMemory::from_story_bytes(vec![0x80, 0x12]);
    let mut pc: u16 = 0;
    assert_eq!(
        Operation::decoded(ZMachineVersion::V3, &memory, &mut pc).unwrap_err(),
        ZmError::MemoryInvalidAccess(2)
    );
    assert_eq!(pc, 2);
}
