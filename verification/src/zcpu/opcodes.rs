//! The instructions the machine gives a name of their own, for dispatching
//! and for future tooling such as a disassembler.

use vstd::prelude::*;

use crate::zcpu::instructions::{InstructionForm, Operation};

verus! {

/// A named instruction.
#[derive(Copy, Clone, Debug, PartialEq, Eq, Structural)]
pub enum ZOpcode {
    /// 0OP:176, return true from the current routine.
    OP0_176,
    /// 0OP:177, return false from the current routine.
    OP0_177,
}

/// The named instruction a decoded operation stands for: the zero-operand
/// short-form opcodes 0 and 1 are the two return instructions; everything
/// else has no name here.
pub open spec fn spec_opcode_of_operation(
    form: InstructionForm,
    opcode_number: u8,
    n_operands: int,
) -> Option<ZOpcode> {
    if form == InstructionForm::Short && n_operands == 0 && opcode_number == 0 {
        Some(ZOpcode::OP0_176)
    } else if form == InstructionForm::Short && n_operands == 0 && opcode_number == 1 {
        Some(ZOpcode::OP0_177)
    } else {
        None
    }
}

impl ZOpcode {
    /// The named instruction a decoded operation stands for, if any.
    pub fn from_operation(operation: &Operation) -> (r: Option<ZOpcode>)
        ensures
            r == spec_opcode_of_operation(
                operation.form,
                operation.opcode_number,
                operation.operands@.len() as int,
            ),
    {
        if matches!(operation.form, InstructionForm::Short) && operation.operands.len() == 0 {
            if operation.opcode_number == 0 {
                Some(ZOpcode::OP0_176)
            } else if operation.opcode_number == 1 {
                Some(ZOpcode::OP0_177)
            } else {
                None
            }
        } else {
            None
        }
    }
}

} // verus!
