//! The story header: the fixed 64-byte region at the start of the memory
//! image that names the required machine version, the initial program
//! counter, the region boundaries, the table locations and the two flag
//! words.

use vstd::prelude::*;

use crate::errors::{ZmError, ZmResult};
use crate::zmemory::{spec_word_at, spec_write_word, word_hi, word_lo, ZMemory, ZMemoryAddress};

verus! {

/// The required machine version, a closed range from 1 to 8. Any other
/// version byte is an unknown-version fault at decode time.
#[derive(Copy, Clone, Debug, PartialEq, Eq, Structural)]
pub enum ZMachineVersion {
    V1,
    V2,
    V3,
    V4,
    V5,
    V6,
    V7,
    V8,
}

impl ZMachineVersion {
    /// The version as the number stored in the header's version byte.
    pub open spec fn spec_number(self) -> u8 {
        match self {
            ZMachineVersion::V1 => 1,
            ZMachineVersion::V2 => 2,
            ZMachineVersion::V3 => 3,
            ZMachineVersion::V4 => 4,
            ZMachineVersion::V5 => 5,
            ZMachineVersion::V6 => 6,
            ZMachineVersion::V7 => 7,
            ZMachineVersion::V8 => 8,
        }
    }

    /// The version as the number stored in the header's version byte.
    #[verifier::when_used_as_spec(spec_number)]
    pub fn number(self) -> (n: u8)
        ensures
            n == self.spec_number(),
    {
        match self {
            ZMachineVersion::V1 => 1,
            ZMachineVersion::V2 => 2,
            ZMachineVersion::V3 => 3,
            ZMachineVersion::V4 => 4,
            ZMachineVersion::V5 => 5,
            ZMachineVersion::V6 => 6,
            ZMachineVersion::V7 => 7,
            ZMachineVersion::V8 => 8,
        }
    }

    /// The version named by a header version byte, for bytes 1 to 8.
    /// Meaningful only on that range.
    pub open spec fn spec_of_number(value: u8) -> ZMachineVersion {
        if value == 1 {
            ZMachineVersion::V1
        } else if value == 2 {
            ZMachineVersion::V2
        } else if value == 3 {
            ZMachineVersion::V3
        } else if value == 4 {
            ZMachineVersion::V4
        } else if value == 5 {
            ZMachineVersion::V5
        } else if value == 6 {
            ZMachineVersion::V6
        } else if value == 7 {
            ZMachineVersion::V7
        } else {
            ZMachineVersion::V8
        }
    }

    /// The version named by a header version byte. Bytes 1 to 8 name the
    /// eight versions; every other byte is an unknown-version fault.
    pub fn try_from(value: u8) -> (r: ZmResult<ZMachineVersion>)
        ensures
            1 <= value <= 8 ==> r == Ok::<ZMachineVersion, ZmError>(
                ZMachineVersion::spec_of_number(value),
            ),
            !(1 <= value <= 8) ==> r == Err::<ZMachineVersion, ZmError>(
                ZmError::MachineUnknownVersion(value),
            ),
            r matches Ok(v) ==> v.spec_number() == value,
    {
        match value {
            1 => Ok(ZMachineVersion::V1),
            2 => Ok(ZMachineVersion::V2),
            3 => Ok(ZMachineVersion::V3),
            4 => Ok(ZMachineVersion::V4),
            5 => Ok(ZMachineVersion::V5),
            6 => Ok(ZMachineVersion::V6),
            7 => Ok(ZMachineVersion::V7),
            8 => Ok(ZMachineVersion::V8),
            _ => Err(ZmError::MachineUnknownVersion(value)),
        }
    }
}

/// Flags 1, versions 1 to 3: status line type is hours:minutes when set,
/// score/turns when clear.
pub const FLAGS1_STATUS_LINE_TYPE: u8 = 0x02;

/// Flags 1, versions 1 to 3: the story file is split across two discs.
pub const FLAGS1_STORY_SPLIT_DISCS: u8 = 0x04;

/// Flags 1, versions 1 to 3: the status line is unavailable.
pub const FLAGS1_STATUS_LINE_UNAVAILABLE: u8 = 0x10;

/// Flags 1, versions 1 to 3: screen-splitting is available.
pub const FLAGS1_SCREEN_SPLITTING_AVAILABLE: u8 = 0x20;

/// Flags 1, versions 1 to 3: a variable-pitch font is the default.
pub const FLAGS1_VARIABLE_PITCH_FONT_IS_DEFAULT: u8 = 0x40;

/// All defined Flags 1 bits for versions 1 to 3.
pub const FLAGS1_ALL: u8 = 0x76;

/// Flags 1 feature bit, versions 4 and later: colors are available.
pub const FEATURE_AVAILABLE_COLORS: u8 = 0x01;

/// Flags 1 feature bit, versions 4 and later: picture displaying is available.
pub const FEATURE_AVAILABLE_PICTURE: u8 = 0x02;

/// Flags 1 feature bit, versions 4 and later: boldface is available.
pub const FEATURE_AVAILABLE_BOLDFACE: u8 = 0x04;

/// Flags 1 feature bit, versions 4 and later: italic is available.
pub const FEATURE_AVAILABLE_ITALIC: u8 = 0x08;

/// Flags 1 feature bit, versions 4 and later: a fixed-space style is available.
pub const FEATURE_AVAILABLE_FIXED_SPACE: u8 = 0x10;

/// Flags 1 feature bit, versions 4 and later: sound effects are available.
pub const FEATURE_AVAILABLE_SFX: u8 = 0x20;

/// Flags 1 feature bit, versions 4 and later: timed keyboard input is available.
pub const FEATURE_AVAILABLE_TIMED_INPUT: u8 = 0x80;

/// All defined Flags 1 feature bits for versions 4 and later.
pub const FEATURES_ALL: u8 = 0xBF;

/// Flags 2: transcripting is on. May be set by the game at runtime.
pub const FLAGS2_ENABLE_TRANSCRIPTING: u16 = 0x0001;

/// Flags 2, versions 3 and later: force printing in a fixed-pitch font.
pub const FLAGS2_FORCE_PRINTING_FIXED_PITCH: u16 = 0x0002;

/// Flags 2, versions 6 and later: the interpreter requests a screen redraw;
/// the game clears the bit when it complies.
pub const FLAGS2_MUST_REDRAW_SCREEN: u16 = 0x0004;

/// Flags 2, versions 5 and later: the game wants to use pictures.
pub const FLAGS2_REQUEST_PICTURES: u16 = 0x0008;

/// Flags 2, versions 5 and later: the game wants to use the undo opcodes.
pub const FLAGS2_REQUEST_UNDO_OPCODES: u16 = 0x0010;

/// Flags 2, versions 5 and later: the game wants to use a mouse.
pub const FLAGS2_REQUEST_MOUSE: u16 = 0x0020;

/// Flags 2, versions 5 and later: the game wants to use colors.
pub const FLAGS2_REQUEST_COLORS: u16 = 0x0040;

/// Flags 2, versions 5 and later: the game wants to use sound effects.
pub const FLAGS2_REQUEST_SFX: u16 = 0x0080;

/// Flags 2, versions 6 and later: the game wants to use menus.
pub const FLAGS2_REQUEST_MENUS: u16 = 0x0100;

/// All defined Flags 2 bits.
pub const FLAGS2_ALL: u16 = 0x01FF;

/// The Flags 1 byte of versions 1 to 3: game and interpreter information.
#[derive(Copy, Clone, Debug, PartialEq, Eq, Structural)]
pub struct ZMachineHeaderFlags1 {
    /// The raw bits, combined from the `FLAGS1_` constants.
    pub bits: u8,
}

/// The Flags 1 byte of versions 4 and later: available interpreter features.
#[derive(Copy, Clone, Debug, PartialEq, Eq, Structural)]
pub struct ZMachineHeaderFlags1Features {
    /// The raw bits, combined from the `FEATURE_` constants.
    pub bits: u8,
}

impl ZMachineHeaderFlags1Features {
    /// Whether every bit of `mask` is set.
    pub fn contains(&self, mask: u8) -> (r: bool)
        ensures
            r == (self.bits & mask == mask),
    {
        self.bits & mask == mask
    }
}

impl Default for ZMachineHeaderFlags1Features {
    /// The features every interpreter is assumed to offer: colors.
    fn default() -> (r: Self)
        ensures
            r.bits == FEATURE_AVAILABLE_COLORS,
    {
        ZMachineHeaderFlags1Features { bits: FEATURE_AVAILABLE_COLORS }
    }
}

/// The Flags 2 word: requested features and global state, sixteen bits whose
/// legality is version-gated. All request bits that the interpreter does not
/// support must be cleared at reset, except the color request.
#[derive(Copy, Clone, Debug, PartialEq, Eq, Structural)]
pub struct ZMachineHeaderFlags2 {
    /// The raw bits, combined from the `FLAGS2_` constants.
    pub bits: u16,
}

/// The Flags 2 bits that are legal for a version and a set of available
/// features: transcripting and the color request always; fixed-pitch forcing
/// from version 3; with known features, the undo and mouse requests from
/// version 5, the picture and sound requests from version 5 when the feature
/// is available, and the menus request from version 6.
pub open spec fn spec_allowed_flags2(
    version: ZMachineVersion,
    flags1: Option<ZMachineHeaderFlags1Features>,
) -> u16 {
    (FLAGS2_ENABLE_TRANSCRIPTING | FLAGS2_REQUEST_COLORS | (
    if version.spec_number() >= 3 {
        FLAGS2_FORCE_PRINTING_FIXED_PITCH
    } else {
        0
    })) | (match flags1 {
        Some(f1) => ((
        if version.spec_number() >= 5 {
            FLAGS2_REQUEST_UNDO_OPCODES | FLAGS2_REQUEST_MOUSE | (
            if f1.bits & FEATURE_AVAILABLE_PICTURE != 0 {
                FLAGS2_REQUEST_PICTURES
            } else {
                0
            }) | (
            if f1.bits & FEATURE_AVAILABLE_SFX != 0 {
                FLAGS2_REQUEST_SFX
            } else {
                0
            })
        } else {
            0
        }) | (
        if version.spec_number() >= 6 {
            FLAGS2_REQUEST_MENUS
        } else {
            0
        })),
        None => 0,
    })
}

impl ZMachineHeaderFlags2 {
    /// The Flags 2 value with no bit set.
    pub fn empty() -> (r: Self)
        ensures
            r.bits == 0,
    {
        ZMachineHeaderFlags2 { bits: 0 }
    }

    /// The raw bits of the word.
    pub fn bits(&self) -> (r: u16)
        ensures
            r == self.bits,
    {
        self.bits
    }

    /// Whether every bit of `mask` is set.
    pub fn contains(&self, mask: u16) -> (r: bool)
        ensures
            r == (self.bits & mask == mask),
    {
        self.bits & mask == mask
    }

    /// All allowed bits for the given machine version and available features.
    pub fn allowed_flags(
        version: ZMachineVersion,
        flags1: &Option<ZMachineHeaderFlags1Features>,
    ) -> (r: Self)
        ensures
            r.bits == spec_allowed_flags2(version, *flags1),
    {
        let base: u16 = FLAGS2_ENABLE_TRANSCRIPTING | FLAGS2_REQUEST_COLORS | (
        if version.number() >= 3 {
            FLAGS2_FORCE_PRINTING_FIXED_PITCH
        } else {
            0
        });
        let extra: u16 = match flags1 {
            Some(f1) => ((
            if version.number() >= 5 {
                FLAGS2_REQUEST_UNDO_OPCODES | FLAGS2_REQUEST_MOUSE | (
                if f1.bits & FEATURE_AVAILABLE_PICTURE != 0 {
                    FLAGS2_REQUEST_PICTURES
                } else {
                    0
                }) | (
                if f1.bits & FEATURE_AVAILABLE_SFX != 0 {
                    FLAGS2_REQUEST_SFX
                } else {
                    0
                })
            } else {
                0
            }) | (
            if version.number() >= 6 {
                FLAGS2_REQUEST_MENUS
            } else {
                0
            })),
            None => 0,
        };
        ZMachineHeaderFlags2 { bits: base | extra }
    }
}

/// The decoded information of a loaded story's header.
#[derive(Debug)]
pub struct ZMachineHeader {
    /// The required machine version, from the version byte at offset 0.
    pub version: ZMachineVersion,
    /// Base of high memory, from the word at offset 0x04.
    pub base_high_memory: ZMemoryAddress,
    /// Initial value of the program counter, from the word at offset 0x06:
    /// a byte address up to version 5, the packed address of the initial
    /// routine from version 6.
    pub initial_pc: ZMemoryAddress,
    /// The Flags 1 byte as last written by `reset`, versions 1 to 3.
    pub flags1_old: Option<ZMachineHeaderFlags1>,
    /// The Flags 1 feature byte as last written by `reset`, versions 4 and later.
    pub flags1: Option<ZMachineHeaderFlags1Features>,
    /// The Flags 2 word as last written by `reset`.
    pub flags2: ZMachineHeaderFlags2,
    /// Location of the dictionary, from the word at offset 0x08.
    pub location_dictionary: ZMemoryAddress,
    /// Location of the object table, from the word at offset 0x0A.
    pub location_object_table: ZMemoryAddress,
    /// Location of the global-variables table, from the word at offset 0x0C.
    pub location_global_variables_table: ZMemoryAddress,
    /// Base of static memory, from the word at offset 0x0E.
    pub base_static_memory: ZMemoryAddress,
    /// Location of the abbreviations table, from the word at offset 0x18;
    /// present exactly from version 2.
    pub location_abbreviations_table: Option<ZMemoryAddress>,
}

/// The memory length a header decode needs: the fixed words up to offset
/// 0x0F, and the abbreviations word at offset 0x18 from version 2.
pub open spec fn spec_header_needed_len(version_byte: u8) -> int {
    if version_byte >= 2 {
        0x1A
    } else {
        0x10
    }
}

/// The byte index a failing header decode reports, for a buffer too short to
/// hold the fields: the first byte of the image that the decode touches and
/// does not find.
pub open spec fn spec_header_err_access(len: int, version_byte: u8) -> int {
    if len < 0x10 {
        if len < 6 {
            6
        } else {
            len
        }
    } else {
        if len < 0x19 {
            0x18
        } else {
            0x19
        }
    }
}

impl ZMachineHeader {
    /// Structural soundness of a decoded header: every table location is a
    /// byte address, the abbreviations location exists exactly from version
    /// 2, and the initial program counter's kind follows the version.
    pub open spec fn wf(&self) -> bool {
        &&& self.base_high_memory is Byte
        &&& self.location_dictionary is Byte
        &&& self.location_object_table is Byte
        &&& self.location_global_variables_table is Byte
        &&& self.base_static_memory is Byte
        &&& (self.location_abbreviations_table is Some <==> self.version.spec_number() >= 2)
        &&& (self.location_abbreviations_table matches Some(a) ==> a is Byte)
        &&& (self.initial_pc is Packed <==> self.version.spec_number() >= 6)
        &&& (self.initial_pc is Byte <==> self.version.spec_number() <= 5)
    }

    /// What a successful decode of buffer `s` holds. Meaningful when the
    /// buffer is long enough and the version byte is valid.
    pub open spec fn spec_decoded(s: Seq<u8>) -> ZMachineHeader {
        let version = ZMachineVersion::spec_of_number(s[0]);
        ZMachineHeader {
            version,
            base_high_memory: ZMemoryAddress::Byte(spec_word_at(s, 0x04)),
            initial_pc: if version.spec_number() >= 6 {
                ZMemoryAddress::Packed(spec_word_at(s, 0x06))
            } else {
                ZMemoryAddress::Byte(spec_word_at(s, 0x06))
            },
            flags1_old: None,
            flags1: None,
            flags2: ZMachineHeaderFlags2 { bits: 0 },
            location_dictionary: ZMemoryAddress::Byte(spec_word_at(s, 0x08)),
            location_object_table: ZMemoryAddress::Byte(spec_word_at(s, 0x0A)),
            location_global_variables_table: ZMemoryAddress::Byte(spec_word_at(s, 0x0C)),
            base_static_memory: ZMemoryAddress::Byte(spec_word_at(s, 0x0E)),
            location_abbreviations_table: if version.spec_number() >= 2 {
                Some(ZMemoryAddress::Byte(spec_word_at(s, 0x18)))
            } else {
                None
            },
        }
    }

    /// Decodes the header from the first bytes of memory. Read-only: it may
    /// be called speculatively.
    ///
    /// Returns the decoded header whenever the version byte names a version
    /// 1 to 8 and the image holds the fields the version needs; fails with an
    /// unknown-version fault on any other version byte, and with an
    /// out-of-bounds fault on an image too short.
    pub fn from_memory(memory: &ZMemory) -> (r: ZmResult<ZMachineHeader>)
        ensures
            memory@.len() == 0 ==> r == Err::<ZMachineHeader, ZmError>(
                ZmError::MemoryInvalidAccess(0),
            ),
            memory@.len() > 0 && !(1 <= memory@[0] <= 8) ==> r == Err::<ZMachineHeader, ZmError>(
                ZmError::MachineUnknownVersion(memory@[0]),
            ),
            memory@.len() > 0 && 1 <= memory@[0] <= 8 && memory@.len() < spec_header_needed_len(
                memory@[0],
            ) ==> r == Err::<ZMachineHeader, ZmError>(
                ZmError::MemoryInvalidAccess(
                    spec_header_err_access(memory@.len() as int, memory@[0]) as usize,
                ),
            ),
            memory@.len() > 0 && 1 <= memory@[0] <= 8 && memory@.len() >= spec_header_needed_len(
                memory@[0],
            ) ==> r == Ok::<ZMachineHeader, ZmError>(ZMachineHeader::spec_decoded(memory@)),
            r matches Ok(h) ==> h.wf() && h.version.spec_number() == memory@[0],
    {
        let version_raw = memory.read_byte(ZMemoryAddress::Byte(0x00))?;
        let version = ZMachineVersion::try_from(version_raw)?;
        let initial_pc_raw = memory.read_word(ZMemoryAddress::Word(0x06))?;
        let base_high_memory = ZMemoryAddress::Byte(memory.read_word(ZMemoryAddress::Word(0x04))?);
        let location_dictionary = ZMemoryAddress::Byte(
            memory.read_word(ZMemoryAddress::Word(0x08))?,
        );
        let location_object_table = ZMemoryAddress::Byte(
            memory.read_word(ZMemoryAddress::Word(0x0A))?,
        );
        let location_global_variables_table = ZMemoryAddress::Byte(
            memory.read_word(ZMemoryAddress::Word(0x0C))?,
        );
        let base_static_memory = ZMemoryAddress::Byte(
            memory.read_word(ZMemoryAddress::Word(0x0E))?,
        );
        let location_abbreviations_table = if version.number() >= 2 {
            Some(ZMemoryAddress::Byte(memory.read_word(ZMemoryAddress::Word(0x18))?))
        } else {
            None
        };
        Ok(
            ZMachineHeader {
                version,
                initial_pc: if version.number() >= 6 {
                    ZMemoryAddress::Packed(initial_pc_raw)
                } else {
                    ZMemoryAddress::Byte(initial_pc_raw)
                },
                flags1_old: None,
                flags1: None,
                flags2: ZMachineHeaderFlags2::empty(),
                base_high_memory,
                location_dictionary,
                location_object_table,
                location_global_variables_table,
                base_static_memory,
                location_abbreviations_table,
            },
        )
    }

    /// The required machine version.
    pub fn get_version(&self) -> (v: ZMachineVersion)
        ensures
            v == self.version,
    {
        self.version
    }

    /// The initial value of the program counter.
    pub fn get_initial_pc(&self) -> (a: ZMemoryAddress)
        ensures
            a == self.initial_pc,
    {
        self.initial_pc
    }

    /// The location of the object table.
    pub fn get_location_object_table(&self) -> (a: ZMemoryAddress)
        ensures
            a == self.location_object_table,
    {
        self.location_object_table
    }

    /// The location of the abbreviations table, present from version 2.
    pub fn get_location_abbreviations_table(&self) -> (a: Option<ZMemoryAddress>)
        ensures
            a == self.location_abbreviations_table,
    {
        self.location_abbreviations_table
    }
}

/// The Flags 1 byte that `reset` writes back: from version 4 the available
/// features read from memory, masked to the defined feature bits; before
/// version 4 only the game's status-line-type and split-discs bits are kept.
pub open spec fn spec_reset_flags1(version: ZMachineVersion, raw: u8) -> u8 {
    if version.spec_number() >= 4 {
        raw & FEATURES_ALL
    } else {
        raw & (FLAGS1_STATUS_LINE_TYPE | FLAGS1_STORY_SPLIT_DISCS)
    }
}

/// The Flags 1 feature set the header holds after `reset`: present from
/// version 4 only.
pub open spec fn spec_reset_features(version: ZMachineVersion, raw: u8) -> Option<
    ZMachineHeaderFlags1Features,
> {
    if version.spec_number() >= 4 {
        Some(ZMachineHeaderFlags1Features { bits: spec_reset_flags1(version, raw) })
    } else {
        None
    }
}

/// The Flags 2 word that `reset` writes back: the word read from memory,
/// masked to the defined bits and to the bits legal for the version and the
/// available features.
pub open spec fn spec_reset_flags2(version: ZMachineVersion, raw1: u8, raw2: u16) -> u16 {
    (raw2 & FLAGS2_ALL) & spec_allowed_flags2(version, spec_reset_features(version, raw1))
}

/// The memory image after a successful `reset` on image `s`: the Flags 1
/// byte at offset 0x01 and the Flags 2 word at offset 0x10 rewritten masked,
/// and the two standard-revision bytes stamped. Meaningful when
/// `s.len() >= 0x34`.
pub open spec fn spec_reset_mem(s: Seq<u8>, version: ZMachineVersion) -> Seq<u8> {
    let f1 = spec_reset_flags1(version, s[1]);
    let f2 = spec_reset_flags2(version, s[1], spec_word_at(s, 0x10));
    spec_write_word(s.update(1, f1), 0x10, f2).update(0x32, 1u8).update(0x33, 1u8)
}

/// The byte index a failing `reset` reports: the first byte it touches and
/// does not find. Meaningful when `len < 0x34`.
pub open spec fn spec_reset_err_access(len: int) -> int {
    if len < 2 {
        1
    } else if len < 0x11 {
        0x10
    } else if len == 0x11 {
        0x11
    } else if len < 0x33 {
        0x32
    } else {
        0x33
    }
}

impl ZMachineHeader {
    /// Rewrites the header state that loading, restoring and restarting must
    /// re-derive: re-reads the two flag words from memory, masks Flags 2
    /// against the bits legal for the negotiated version and available
    /// features, writes the masked flags back, and stamps the two
    /// interpreter-standard-revision bytes at offsets 0x32 and 0x33.
    ///
    /// Succeeds exactly on images long enough to hold every touched byte
    /// (0x34 bytes); a shorter image gives an out-of-bounds fault naming the
    /// first missing byte, with memory and header left unchanged.
    pub fn reset(&mut self, memory: &mut ZMemory) -> (r: ZmResult<()>)
        ensures
            old(memory)@.len() >= 0x34 ==> {
                &&& r == Ok::<(), ZmError>(())
                &&& final(memory)@ == spec_reset_mem(old(memory)@, old(self).version)
                &&& final(self).flags1_old == (
                    if old(self).version.spec_number() >= 4 {
                        None::<ZMachineHeaderFlags1>
                    } else {
                        Some(
                            ZMachineHeaderFlags1 {
                                bits: spec_reset_flags1(old(self).version, old(memory)@[1]),
                            },
                        )
                    }
                )
                &&& final(self).flags1 == spec_reset_features(old(self).version, old(memory)@[1])
                &&& final(self).flags2.bits == spec_reset_flags2(
                    old(self).version,
                    old(memory)@[1],
                    spec_word_at(old(memory)@, 0x10),
                )
            },
            old(memory)@.len() < 0x34 ==> {
                &&& r == Err::<(), ZmError>(
                    ZmError::MemoryInvalidAccess(
                        spec_reset_err_access(old(memory)@.len() as int) as usize,
                    ),
                )
                &&& final(memory)@ == old(memory)@
                &&& *final(self) == *old(self)
            },
            final(self).version == old(self).version,
            final(self).initial_pc == old(self).initial_pc,
            final(self).base_high_memory == old(self).base_high_memory,
            final(self).location_dictionary == old(self).location_dictionary,
            final(self).location_object_table == old(self).location_object_table,
            final(self).location_global_variables_table == old(
                self,
            ).location_global_variables_table,
            final(self).base_static_memory == old(self).base_static_memory,
            final(self).location_abbreviations_table == old(self).location_abbreviations_table,
            final(memory)@.len() == old(memory)@.len(),
            old(self).wf() ==> final(self).wf(),
    {
        // every byte this reset touches is checked up front, so that a short
        // image faults before any write
        let n = memory.len();
        if n < 2 {
            return Err(ZmError::MemoryInvalidAccess(1));
        }
        if n < 0x11 {
            return Err(ZmError::MemoryInvalidAccess(0x10));
        }
        if n == 0x11 {
            return Err(ZmError::MemoryInvalidAccess(0x11));
        }
        if n < 0x33 {
            return Err(ZmError::MemoryInvalidAccess(0x32));
        }
        if n == 0x33 {
            return Err(ZmError::MemoryInvalidAccess(0x33));
        }
        // flags 1
        let flags1_raw = memory.read_byte(ZMemoryAddress::Byte(0x01))?;
        if self.version.number() >= 4 {
            let features = ZMachineHeaderFlags1Features { bits: flags1_raw & FEATURES_ALL };
            self.flags1 = Some(features);
            self.flags1_old = None;
            memory.write_byte(ZMemoryAddress::Byte(0x01), features.bits)?;
        } else {
            let old_flags = ZMachineHeaderFlags1 {
                bits: flags1_raw & (FLAGS1_STATUS_LINE_TYPE | FLAGS1_STORY_SPLIT_DISCS),
            };
            self.flags1_old = Some(old_flags);
            self.flags1 = None;
            memory.write_byte(ZMemoryAddress::Byte(0x01), old_flags.bits)?;
        }
        // filter and set flags 2
        let flags2_raw = memory.read_word(ZMemoryAddress::Word(0x10))?;
        let allowed = ZMachineHeaderFlags2::allowed_flags(self.version, &self.flags1);
        self.flags2 = ZMachineHeaderFlags2 { bits: (flags2_raw & FLAGS2_ALL) & allowed.bits };
        memory.write_word(ZMemoryAddress::Word(0x10), self.flags2.bits)?;
        // stamp the interpreter as following revision 1.1 of the standard
        memory.write_byte(ZMemoryAddress::Byte(0x32), 0x1)?;
        memory.write_byte(ZMemoryAddress::Byte(0x33), 0x1)?;
        Ok(())
    }
}

/// Law: `reset` never leaves a Flags 2 bit set that is illegal for the
/// negotiated version and available features. Whatever word the image held,
/// the value written back has no bit outside the allowed set.
pub proof fn lemma_reset_flags2_legal(version: ZMachineVersion, raw1: u8, raw2: u16)
    ensures
        spec_reset_flags2(version, raw1, raw2) & !spec_allowed_flags2(
            version,
            spec_reset_features(version, raw1),
        ) == 0,
{
    let allowed = spec_allowed_flags2(version, spec_reset_features(version, raw1));
    let written = spec_reset_flags2(version, raw1, raw2);
    assert(((raw2 & FLAGS2_ALL) & allowed) & !allowed == 0) by (bit_vector);
}

} // verus!
