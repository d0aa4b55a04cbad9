//! The top-level composition of the machine: memory image, decoded header
//! and processing unit.

pub mod header;
pub mod object;

use vstd::prelude::*;

use crate::errors::{ZmError, ZmResult};
use crate::zcpu::instructions::spec_decode;
use crate::zcpu::ZCpu;
use crate::zmachine::header::{
    spec_reset_err_access, spec_reset_features, spec_reset_flags2, spec_reset_mem, ZMachineHeader,
};
use crate::zmemory::{spec_word_at, ZMemory};

verus! {

/// The core of the interpreter: a loaded story image and the machinery that
/// runs it, stepped one instruction at a time by the driving client.
#[derive(Debug)]
pub struct ZMachine {
    /// The virtual memory management unit.
    pub memory: ZMemory,
    /// The story header information, decoded from the first 64 bytes of memory.
    pub header: ZMachineHeader,
    /// The virtual processing unit.
    pub cpu: ZCpu,
}

impl ZMachine {
    /// Consistency of a loaded machine: a sound header, and a processor
    /// targeting the negotiated version.
    pub open spec fn wf(&self) -> bool {
        &&& self.header.wf()
        &&& self.cpu.target == self.header.version
    }

    /// Loads a story image and initializes the machine: decodes the header,
    /// resets the header state in memory, and sets up the processor at the
    /// initial program counter.
    ///
    /// Succeeds exactly on images whose version byte names a version 1 to 5
    /// (later versions place the initial routine behind a packed address,
    /// which this processor does not take) and which hold every byte that
    /// the decode and the reset touch. The faults are those of the header
    /// decode and reset, then an unsupported-version fault on the versions
    /// with a packed initial program counter.
    pub fn from_story_bytes(buffer: Vec<u8>) -> (r: ZmResult<ZMachine>)
        ensures
            ({
                let s = buffer@;
                &&& (s.len() == 0 ==> r == Err::<ZMachine, ZmError>(ZmError::MemoryInvalidAccess(0)))
                &&& (s.len() > 0 && !(1 <= s[0] <= 8) ==> r == Err::<ZMachine, ZmError>(
                    ZmError::MachineUnknownVersion(s[0]),
                ))
                &&& (s.len() > 0 && 1 <= s[0] <= 8 && s.len() < header::spec_header_needed_len(s[0])
                    ==> r == Err::<ZMachine, ZmError>(
                    ZmError::MemoryInvalidAccess(
                        header::spec_header_err_access(s.len() as int, s[0]) as usize,
                    ),
                ))
                &&& (s.len() > 0 && 1 <= s[0] <= 8 && s.len() >= header::spec_header_needed_len(
                    s[0],
                ) ==> {
                    let h0 = ZMachineHeader::spec_decoded(s);
                    &&& (s.len() < 0x34 ==> r == Err::<ZMachine, ZmError>(
                        ZmError::MemoryInvalidAccess(
                            spec_reset_err_access(s.len() as int) as usize,
                        ),
                    ))
                    &&& (s.len() >= 0x34 && s[0] >= 6 ==> r == Err::<ZMachine, ZmError>(
                        ZmError::MachineUnsupportedVersion(h0.version),
                    ))
                    &&& (s.len() >= 0x34 && s[0] <= 5 ==> {
                        &&& r matches Ok(m)
                        &&& m.wf()
                        &&& m.memory@ == spec_reset_mem(s, h0.version)
                        &&& m.cpu.target == h0.version
                        &&& m.cpu.pc == spec_word_at(s, 0x06)
                        &&& m.header.version == h0.version
                        &&& m.header.initial_pc == h0.initial_pc
                        &&& m.header.base_high_memory == h0.base_high_memory
                        &&& m.header.location_dictionary == h0.location_dictionary
                        &&& m.header.location_object_table == h0.location_object_table
                        &&& m.header.location_global_variables_table
                            == h0.location_global_variables_table
                        &&& m.header.base_static_memory == h0.base_static_memory
                        &&& m.header.location_abbreviations_table
                            == h0.location_abbreviations_table
                        &&& m.header.flags1 == spec_reset_features(h0.version, s[1])
                        &&& m.header.flags2.bits == spec_reset_flags2(
                            h0.version,
                            s[1],
                            spec_word_at(s, 0x10),
                        )
                    })
                })
            }),
    {
        let mut memory = ZMemory::from_story_bytes(buffer);
        let mut header = ZMachineHeader::from_memory(&memory)?;
        header.reset(&mut memory)?;
        let cpu = ZCpu::from_header(&header)?;
        Ok(ZMachine { memory, header, cpu })
    }

    /// Fetch, decode and execute exactly one instruction at the program
    /// counter, advancing the counter past it.
    pub fn step(&mut self) -> (r: ZmResult<()>)
        ensures
            final(self).header == old(self).header,
            final(self).cpu.target == old(self).cpu.target,
            final(self).memory@ == old(self).memory@,
            old(self).wf() ==> final(self).wf(),
            match spec_decode(old(self).cpu.target, old(self).memory@, old(self).cpu.pc) {
                Ok((op, end)) => r == Ok::<(), ZmError>(()) && final(self).cpu.pc == end,
                Err((e, end)) => r == Err::<(), ZmError>(e) && final(self).cpu.pc == end,
            },
    {
        self.cpu.step(&mut self.memory)
    }
}

} // verus!
