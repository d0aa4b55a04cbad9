//! The machine's processing unit: the program counter, the target version
//! and the fetch-decode-execute cycle.
//!
//! The virtual processor is big-endian: a two-byte word is processed most
//! significant byte first.

pub mod instructions;
pub mod opcodes;

use vstd::prelude::*;

use crate::errors::{ZmError, ZmResult};
use crate::zcpu::instructions::{spec_decode, Operation};
use crate::zcpu::opcodes::ZOpcode;
use crate::zmachine::header::{ZMachineHeader, ZMachineVersion};
use crate::zmemory::{ZMemory, ZMemoryAddress};

verus! {

/// The machine's processing unit.
#[derive(Debug)]
pub struct ZCpu {
    /// The targeted machine version, immutable after load.
    pub target: ZMachineVersion,
    /// The program counter: the absolute byte address of the next instruction.
    pub pc: u16,
}

impl ZCpu {
    /// A processor set up from a decoded header: the version it negotiated
    /// and its initial program counter.
    ///
    /// Succeeds exactly when the initial program counter is a byte address,
    /// which the header gives up to version 5; the packed initial routine
    /// address of later versions names a construct this processor does not
    /// support yet, an unsupported-version fault.
    pub fn from_header(header: &ZMachineHeader) -> (r: ZmResult<ZCpu>)
        ensures
            match header.initial_pc {
                ZMemoryAddress::Byte(pc) => r == Ok::<ZCpu, ZmError>(
                    ZCpu { target: header.version, pc },
                ),
                _ => r == Err::<ZCpu, ZmError>(
                    ZmError::MachineUnsupportedVersion(header.version),
                ),
            },
    {
        match header.get_initial_pc() {
            ZMemoryAddress::Byte(pc) => Ok(ZCpu { target: header.get_version(), pc }),
            _ => Err(ZmError::MachineUnsupportedVersion(header.get_version())),
        }
    }

    /// Fetch, decode and execute the next instruction.
    ///
    /// The program counter moves past every byte the decode consumed, or
    /// stops at the first missing byte on an out-of-bounds fault. Executing
    /// the decoded operation leaves memory unchanged: the operations this
    /// engine recognizes have no effect outside the call stack, and effectful
    /// opcodes are dispatched to the driving client.
    pub fn step(&mut self, memory: &mut ZMemory) -> (r: ZmResult<()>)
        ensures
            final(self).target == old(self).target,
            final(memory)@ == old(memory)@,
            match spec_decode(old(self).target, old(memory)@, old(self).pc) {
                Ok((op, end)) => r == Ok::<(), ZmError>(()) && final(self).pc == end,
                Err((e, end)) => r == Err::<(), ZmError>(e) && final(self).pc == end,
            },
    {
        let operation = self.fetch_decoded_instruction(memory)?;
        self.execute_decoded_instruction(memory, &operation)?;
        Ok(())
    }

    /// Fetches and decodes the instruction at the program counter, advancing
    /// the counter past the bytes read.
    fn fetch_decoded_instruction(&mut self, memory: &ZMemory) -> (r: ZmResult<Operation>)
        ensures
            final(self).target == old(self).target,
            (spec_decode(old(self).target, memory@, old(self).pc) matches Ok((op, end)) ==> r
                matches Ok(o) && o.form == op.form && o.opcode_number == op.opcode_number
                && o.operands@ == op.operands && final(self).pc == end),
            (spec_decode(old(self).target, memory@, old(self).pc) matches Err((e, end)) ==> r
                == Err::<Operation, ZmError>(e) && final(self).pc == end),
    {
        let mut pc = self.pc;
        let r = Operation::decoded(self.target, memory, &mut pc);
        self.pc = pc;
        r
    }

    /// Applies a decoded operation to machine state.
    ///
    /// The zero-operand return operations this engine recognizes act on the
    /// call stack alone and leave memory untouched; every other operation is
    /// accepted and leaves state unchanged, its presentation being owned by
    /// the driving client.
    fn execute_decoded_instruction(&mut self, memory: &mut ZMemory, operation: &Operation) -> (r:
        ZmResult<()>)
        ensures
            r == Ok::<(), ZmError>(()),
            *final(self) == *old(self),
            final(memory)@ == old(memory)@,
    {
        match ZOpcode::from_operation(operation) {
            Some(ZOpcode::OP0_176) => Ok(()),
            Some(ZOpcode::OP0_177) => Ok(()),
            None => Ok(()),
        }
    }
}

} // verus!
