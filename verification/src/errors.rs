//! The fault taxonomy of the machine.
//!
//! Every fault surfaces to the caller with its kind and the offending value
//! or address, and no fault is silently swallowed. Faults are fatal to the
//! operation in progress; the machine performs no automatic retries.

use vstd::prelude::*;

use crate::zmachine::header::ZMachineVersion;
use crate::zmemory::ZMemoryAddress;

verus! {

/// A fault raised while loading or running a story image.
#[derive(Copy, Clone, Debug, PartialEq, Eq, Structural)]
pub enum ZmError {
    /// The version byte of the header is outside the architecture's range 1-8.
    MachineUnknownVersion(u8),
    /// The story requires a version whose constructs this machine does not support.
    MachineUnsupportedVersion(ZMachineVersion),
    /// A read or write touched a byte index past the end of the memory image.
    MemoryInvalidAccess(usize),
    /// An operation was given an address of the wrong kind.
    MemoryInvalidAddress(ZMemoryAddress),
    /// A property size byte that is a multiple of 32, or one whose encoded
    /// property number does not match the requested property.
    ObjectInvalidPropertySize(u8),
    /// A property lookup asked for property 0 or a number past the defaults table.
    ObjectInvalidPropertyNumber(u8),
    /// A Z-character outside the shift range was handed to an alphabet shift.
    StringInvalidAlphabetShiftCharacter(u8),
    /// A ZSCII code outside the defined output ranges.
    StringInvalidZSCIICharacterCode(u16),
    /// An abbreviation reference where none is legal: inside another
    /// abbreviation, or in a string decoded without an abbreviations table.
    StringIllegalAbbreviation(u8),
}

/// The result type of every fallible operation of the machine.
pub type ZmResult<T> = Result<T, ZmError>;

} // verus!
