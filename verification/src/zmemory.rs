//! The machine's memory image: a single byte buffer addressed through
//! kind-tagged addresses, with big-endian word access.
//!
//! The buffer is divided into three regions. Dynamic memory starts at 0x00
//! and ends right before the start of static memory; it must contain at
//! least the 64 header bytes and is freely writable by the running program.
//! Static memory starts at the base named in the header and is read-only for
//! the program. High memory starts at the header's high-memory mark and holds
//! routines and packed strings; it may overlap static memory. The region
//! boundaries are policy for the program, not a runtime check made here.

use vstd::prelude::*;

use crate::errors::{ZmError, ZmResult};

verus! {

/// Addition of a 16-bit offset to a 16-bit address, wrapping around the
/// 64 KiB address space.
pub open spec fn wrap_add(a: u16, b: u16) -> u16 {
    vstd::wrapping::u16_specs::wrapping_add(a, b)
}

/// The value of a big-endian word formed from a high and a low byte.
pub open spec fn spec_word_be(hi: u8, lo: u8) -> u16 {
    (hi * 256 + lo) as u16
}

/// The big-endian word stored at byte index `a` of a buffer.
/// Meaningful when `a + 1 < s.len()`.
pub open spec fn spec_word_at(s: Seq<u8>, a: int) -> u16 {
    spec_word_be(s[a], s[a + 1])
}

/// The most significant byte of a word.
pub open spec fn word_hi(v: u16) -> u8 {
    (v / 256) as u8
}

/// The least significant byte of a word.
pub open spec fn word_lo(v: u16) -> u8 {
    (v % 256) as u8
}

/// The buffer after a big-endian word write at byte index `a`.
/// Meaningful when `a + 1 < s.len()`.
pub open spec fn spec_write_word(s: Seq<u8>, a: int, v: u16) -> Seq<u8> {
    s.update(a, word_hi(v)).update(a + 1, word_lo(v))
}

/// The different kinds of addresses in the Z-machine.
///
/// An address's kind constrains which read or write operation may target it;
/// handing an operation the wrong kind is a fault, never a silent
/// reinterpretation.
#[derive(Copy, Clone, Debug, PartialEq, Eq, Structural)]
pub enum ZMemoryAddress {
    /// An individual byte by absolute address.
    Byte(u16),
    /// A word by absolute address, composed of two bytes.
    ///
    /// The machine is big-endian, so the address points to the most
    /// significant byte and the following byte holds the least significant.
    Word(u16),
    /// A word in the bottom 128 KiB of memory, at twice the stored value.
    ///
    /// Only used inside the abbreviations table.
    RelativeWord(u16),
    /// The packed relative location of a routine or string in high memory,
    /// at the stored value times a version-dependent scale factor.
    Packed(u16),
}

impl ZMemoryAddress {
    /// The absolute byte address held by a `Byte` address; a fault on any
    /// other kind.
    pub fn as_byte(&self) -> (r: ZmResult<u16>)
        ensures
            match *self {
                ZMemoryAddress::Byte(a) => r == Ok::<u16, ZmError>(a),
                _ => r == Err::<u16, ZmError>(ZmError::MemoryInvalidAddress(*self)),
            },
    {
        match self {
            ZMemoryAddress::Byte(address) => Ok(*address),
            _ => Err(ZmError::MemoryInvalidAddress(*self)),
        }
    }

    /// A `Byte` address moved forward by `offset`, wrapping around the
    /// address space; a fault on any other kind.
    pub fn offset_byte(&self, offset: u16) -> (r: ZmResult<Self>)
        ensures
            match *self {
                ZMemoryAddress::Byte(a) => r == Ok::<ZMemoryAddress, ZmError>(
                    ZMemoryAddress::Byte(wrap_add(a, offset)),
                ),
                _ => r == Err::<ZMemoryAddress, ZmError>(ZmError::MemoryInvalidAddress(*self)),
            },
    {
        match self {
            ZMemoryAddress::Byte(address) => Ok(ZMemoryAddress::Byte(address.wrapping_add(offset))),
            _ => Err(ZmError::MemoryInvalidAddress(*self)),
        }
    }

    /// A `Word` address `offset` bytes after a `Byte` or `Word` address,
    /// wrapping around the address space; a fault on any other kind.
    pub fn offset_word(&self, offset: u16) -> (r: ZmResult<Self>)
        ensures
            match *self {
                ZMemoryAddress::Byte(a) => r == Ok::<ZMemoryAddress, ZmError>(
                    ZMemoryAddress::Word(wrap_add(a, offset)),
                ),
                ZMemoryAddress::Word(a) => r == Ok::<ZMemoryAddress, ZmError>(
                    ZMemoryAddress::Word(wrap_add(a, offset)),
                ),
                _ => r == Err::<ZMemoryAddress, ZmError>(ZmError::MemoryInvalidAddress(*self)),
            },
    {
        match self {
            ZMemoryAddress::Byte(address) | ZMemoryAddress::Word(address) => Ok(
                ZMemoryAddress::Word(address.wrapping_add(offset)),
            ),
            _ => Err(ZmError::MemoryInvalidAddress(*self)),
        }
    }
}

/// The machine's memory management unit: the raw story image, addressed
/// through kind-tagged addresses.
#[derive(Debug)]
pub struct ZMemory {
    /// The raw bytes of the loaded story image.
    pub buffer: Vec<u8>,
}

impl View for ZMemory {
    type V = Seq<u8>;

    open spec fn view(&self) -> Seq<u8> {
        self.buffer@
    }
}

impl ZMemory {
    /// A memory image over the given story bytes. The driving client reads
    /// the story stream to exhaustion and hands the bytes in whole.
    pub fn from_story_bytes(buffer: Vec<u8>) -> (m: ZMemory)
        ensures
            m@ == buffer@,
    {
        ZMemory { buffer }
    }

    /// The number of bytes in the image.
    pub fn len(&self) -> (n: usize)
        ensures
            n == self@.len(),
    {
        self.buffer.len()
    }

    /// The byte stored at a `Byte` address.
    ///
    /// Fails with an out-of-bounds fault on an address at or past the buffer
    /// end, and with an invalid-address fault on any other address kind.
    pub fn read_byte(&self, address: ZMemoryAddress) -> (r: ZmResult<u8>)
        ensures
            match address {
                ZMemoryAddress::Byte(a) => if a < self@.len() {
                    r == Ok::<u8, ZmError>(self@[a as int])
                } else {
                    r == Err::<u8, ZmError>(ZmError::MemoryInvalidAccess(a as usize))
                },
                _ => r == Err::<u8, ZmError>(ZmError::MemoryInvalidAddress(address)),
            },
    {
        match address {
            ZMemoryAddress::Byte(a) => {
                let i = a as usize;
                if i < self.buffer.len() {
                    Ok(self.buffer[i])
                } else {
                    Err(ZmError::MemoryInvalidAccess(i))
                }
            },
            _ => Err(ZmError::MemoryInvalidAddress(address)),
        }
    }

    /// The big-endian word stored at a `Word` address: the byte at the
    /// address is the most significant, the byte after it the least.
    ///
    /// Fails with an out-of-bounds fault naming the first missing byte, and
    /// with an invalid-address fault on any other address kind.
    pub fn read_word(&self, address: ZMemoryAddress) -> (r: ZmResult<u16>)
        ensures
            match address {
                ZMemoryAddress::Word(a) => if a + 1 < self@.len() {
                    r == Ok::<u16, ZmError>(spec_word_at(self@, a as int))
                } else if a < self@.len() {
                    r == Err::<u16, ZmError>(ZmError::MemoryInvalidAccess((a + 1) as usize))
                } else {
                    r == Err::<u16, ZmError>(ZmError::MemoryInvalidAccess(a as usize))
                },
                _ => r == Err::<u16, ZmError>(ZmError::MemoryInvalidAddress(address)),
            },
    {
        match address {
            ZMemoryAddress::Word(a) => {
                let i = a as usize;
                if i >= self.buffer.len() {
                    return Err(ZmError::MemoryInvalidAccess(i));
                }
                if i + 1 >= self.buffer.len() {
                    return Err(ZmError::MemoryInvalidAccess(i + 1));
                }
                let upper = self.buffer[i];
                let lower = self.buffer[i + 1];
                Ok((upper as u16) * 256 + (lower as u16))
            },
            _ => Err(ZmError::MemoryInvalidAddress(address)),
        }
    }

    /// Stores a byte at a `Byte` address.
    ///
    /// Fails with an out-of-bounds fault, leaving memory unchanged, on an
    /// address at or past the buffer end, and with an invalid-address fault
    /// on any other address kind.
    pub fn write_byte(&mut self, address: ZMemoryAddress, value: u8) -> (r: ZmResult<()>)
        ensures
            match address {
                ZMemoryAddress::Byte(a) => if a < old(self)@.len() {
                    r == Ok::<(), ZmError>(()) && final(self)@ == old(self)@.update(a as int, value)
                } else {
                    r == Err::<(), ZmError>(ZmError::MemoryInvalidAccess(a as usize))
                        && final(self)@ == old(self)@
                },
                _ => r == Err::<(), ZmError>(ZmError::MemoryInvalidAddress(address))
                    && final(self)@ == old(self)@,
            },
    {
        match address {
            ZMemoryAddress::Byte(a) => {
                let i = a as usize;
                if i < self.buffer.len() {
                    self.buffer[i] = value;
                    Ok(())
                } else {
                    Err(ZmError::MemoryInvalidAccess(i))
                }
            },
            _ => Err(ZmError::MemoryInvalidAddress(address)),
        }
    }

    /// Stores a big-endian word at a `Word` address, most significant byte
    /// first.
    ///
    /// The word write is two byte stores. When only the second byte lies past
    /// the buffer end, the first byte has already been stored when the fault
    /// is raised; this partial state is observable but represents a fatal
    /// condition for the run. When the first byte already lies past the end,
    /// memory is unchanged.
    pub fn write_word(&mut self, address: ZMemoryAddress, value: u16) -> (r: ZmResult<()>)
        ensures
            match address {
                ZMemoryAddress::Word(a) => if a + 1 < old(self)@.len() {
                    r == Ok::<(), ZmError>(())
                        && final(self)@ == spec_write_word(old(self)@, a as int, value)
                } else if a < old(self)@.len() {
                    r == Err::<(), ZmError>(ZmError::MemoryInvalidAccess((a + 1) as usize))
                        && final(self)@ == old(self)@.update(a as int, word_hi(value))
                } else {
                    r == Err::<(), ZmError>(ZmError::MemoryInvalidAccess(a as usize))
                        && final(self)@ == old(self)@
                },
                _ => r == Err::<(), ZmError>(ZmError::MemoryInvalidAddress(address))
                    && final(self)@ == old(self)@,
            },
    {
        match address {
            ZMemoryAddress::Word(a) => {
                let i = a as usize;
                if i >= self.buffer.len() {
                    return Err(ZmError::MemoryInvalidAccess(i));
                }
                self.buffer[i] = (value / 256) as u8;
                if i + 1 >= self.buffer.len() {
                    return Err(ZmError::MemoryInvalidAccess(i + 1));
                }
                self.buffer[i + 1] = (value % 256) as u8;
                Ok(())
            },
            _ => Err(ZmError::MemoryInvalidAddress(address)),
        }
    }
}

/// Law: word access is big-endian and exact. Writing a word at byte index
/// `a` stores its most significant byte at `a` and its least significant
/// byte at `a + 1`, and a word read at `a` of the written buffer yields the
/// word back.
pub proof fn lemma_write_word_big_endian(s: Seq<u8>, a: u16, v: u16)
    requires
        a + 1 < s.len(),
    ensures
        spec_write_word(s, a as int, v)[a as int] == word_hi(v),
        spec_write_word(s, a as int, v)[a as int + 1] == word_lo(v),
        spec_word_at(spec_write_word(s, a as int, v), a as int) == v,
{
    assert(word_hi(v) * 256 + word_lo(v) == v) by {
        vstd::arithmetic::div_mod::lemma_fundamental_div_mod(v as int, 256);
    };
}

} // verus!
