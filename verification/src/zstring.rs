//! The packed-text subsystem: Z-character strings, the alphabet state
//! machine, abbreviation expansion and the ZSCII character-set mapping.
//!
//! Text in memory is a sequence of two-byte words, each holding three 5-bit
//! Z-characters, most significant first, with the top bit set on the last
//! word. Z-characters decode to ZSCII codes through one of three alphabets,
//! and ZSCII codes map to output characters.

use vstd::prelude::*;

use crate::errors::{ZmError, ZmResult};
use crate::zmachine::header::{ZMachineHeader, ZMachineVersion};
use crate::zmemory::{spec_word_at, ZMemory, ZMemoryAddress};

verus! {

/// A Z-character: a 5-bit code, three of which pack into one two-byte word
/// of text memory.
pub type ZCharacter = u8;

/// The three alphabets a Z-character can be read through: lower case, upper
/// case and punctuation. A0 is current initially and after every translated
/// character unless a shift intervenes.
#[derive(Copy, Clone, Debug, PartialEq, Eq, Structural)]
pub enum ZAlphabet {
    A0LowerCase,
    A1UpperCase,
    A2Punctuation,
}

/// The alphabet after a forward rotation: A0 to A1, A1 to A2, A2 to A0.
pub open spec fn spec_next_alphabet(a: ZAlphabet) -> ZAlphabet {
    match a {
        ZAlphabet::A0LowerCase => ZAlphabet::A1UpperCase,
        ZAlphabet::A1UpperCase => ZAlphabet::A2Punctuation,
        ZAlphabet::A2Punctuation => ZAlphabet::A0LowerCase,
    }
}

/// The alphabet after a backward rotation: A0 to A2, A1 to A0, A2 to A1.
pub open spec fn spec_previous_alphabet(a: ZAlphabet) -> ZAlphabet {
    match a {
        ZAlphabet::A0LowerCase => ZAlphabet::A2Punctuation,
        ZAlphabet::A1UpperCase => ZAlphabet::A0LowerCase,
        ZAlphabet::A2Punctuation => ZAlphabet::A1UpperCase,
    }
}

/// The character alphabet A2 assigns to a Z-character, versions 2 and later:
/// a new-line at 7, the digits at 8 to 17, then punctuation. Z-characters 0
/// to 6 are not translated through the table and print as a space here.
pub open spec fn spec_a2_char(c: u8) -> char {
    if c == 7 {
        '\n'
    } else if 8 <= c <= 17 {
        ((c + 40) as u8) as char
    } else if c == 18 {
        '.'
    } else if c == 19 {
        ','
    } else if c == 20 {
        '!'
    } else if c == 21 {
        '?'
    } else if c == 22 {
        '_'
    } else if c == 23 {
        '#'
    } else if c == 24 {
        '\''
    } else if c == 25 {
        '"'
    } else if c == 26 {
        '/'
    } else if c == 27 {
        '\\'
    } else if c == 28 {
        '-'
    } else if c == 29 {
        ':'
    } else if c == 30 {
        '('
    } else if c == 31 {
        ')'
    } else {
        ' '
    }
}

/// The character alphabet A2 assigns to a Z-character in version 1, whose
/// table has no new-line row and an extra less-than sign: the digits at 7 to
/// 16, then punctuation.
pub open spec fn spec_a2_v1_char(c: u8) -> char {
    if 7 <= c <= 16 {
        ((c + 41) as u8) as char
    } else if c == 17 {
        '.'
    } else if c == 18 {
        ','
    } else if c == 19 {
        '!'
    } else if c == 20 {
        '?'
    } else if c == 21 {
        '_'
    } else if c == 22 {
        '#'
    } else if c == 23 {
        '\''
    } else if c == 24 {
        '"'
    } else if c == 25 {
        '/'
    } else if c == 26 {
        '\\'
    } else if c == 27 {
        '<'
    } else if c == 28 {
        '-'
    } else if c == 29 {
        ':'
    } else if c == 30 {
        '('
    } else if c == 31 {
        ')'
    } else {
        ' '
    }
}

/// The character an alphabet assigns to a Z-character: the 26 letters at
/// Z-characters 6 to 31 for A0 and A1, and the version-dependent A2 table.
/// Z-characters below 6 are not translated through a table and stand as a
/// space here.
pub open spec fn spec_alphabet_char(alpha: ZAlphabet, version: ZMachineVersion, c: u8) -> char {
    match alpha {
        ZAlphabet::A0LowerCase => if 6 <= c <= 31 {
            ((c + 91) as u8) as char
        } else {
            ' '
        },
        ZAlphabet::A1UpperCase => if 6 <= c <= 31 {
            ((c + 59) as u8) as char
        } else {
            ' '
        },
        ZAlphabet::A2Punctuation => if version.spec_number() == 1 {
            spec_a2_v1_char(c)
        } else {
            spec_a2_char(c)
        },
    }
}

impl ZAlphabet {
    /// The forward rotation of the alphabet.
    fn next(&self) -> (r: ZAlphabet)
        ensures
            r == spec_next_alphabet(*self),
    {
        match self {
            ZAlphabet::A0LowerCase => ZAlphabet::A1UpperCase,
            ZAlphabet::A1UpperCase => ZAlphabet::A2Punctuation,
            ZAlphabet::A2Punctuation => ZAlphabet::A0LowerCase,
        }
    }

    /// The backward rotation of the alphabet.
    fn previous(&self) -> (r: ZAlphabet)
        ensures
            r == spec_previous_alphabet(*self),
    {
        match self {
            ZAlphabet::A0LowerCase => ZAlphabet::A2Punctuation,
            ZAlphabet::A1UpperCase => ZAlphabet::A0LowerCase,
            ZAlphabet::A2Punctuation => ZAlphabet::A1UpperCase,
        }
    }

    /// The alphabet a shift character of versions 1 and 2 selects, starting
    /// from this one, and whether the shift locks: Z-characters 2 and 3 shift
    /// forward and backward for the next character only, and 4 and 5 shift
    /// the same way permanently. Any other Z-character is an
    /// invalid-shift-character fault.
    pub fn shifted_with_maybe_lock(&self, shift_character: ZCharacter) -> (r: ZmResult<
        (Self, bool),
    >)
        ensures
            shift_character == 2 ==> r == Ok::<(ZAlphabet, bool), ZmError>(
                (spec_next_alphabet(*self), false),
            ),
            shift_character == 3 ==> r == Ok::<(ZAlphabet, bool), ZmError>(
                (spec_previous_alphabet(*self), false),
            ),
            shift_character == 4 ==> r == Ok::<(ZAlphabet, bool), ZmError>(
                (spec_next_alphabet(*self), true),
            ),
            shift_character == 5 ==> r == Ok::<(ZAlphabet, bool), ZmError>(
                (spec_previous_alphabet(*self), true),
            ),
            !(2 <= shift_character <= 5) ==> r == Err::<(ZAlphabet, bool), ZmError>(
                ZmError::StringInvalidAlphabetShiftCharacter(shift_character),
            ),
    {
        match shift_character {
            2 => Ok((self.next(), false)),
            3 => Ok((self.previous(), false)),
            4 => Ok((self.next(), true)),
            5 => Ok((self.previous(), true)),
            _ => Err(ZmError::StringInvalidAlphabetShiftCharacter(shift_character)),
        }
    }

    /// The alphabet a shift character of versions 3 and later selects for
    /// the next character only: 4 means upper case, 5 means punctuation,
    /// always relative to A0. Any other Z-character is an
    /// invalid-shift-character fault.
    pub fn shifted(shift_character: ZCharacter) -> (r: ZmResult<Self>)
        ensures
            shift_character == 4 ==> r == Ok::<ZAlphabet, ZmError>(ZAlphabet::A1UpperCase),
            shift_character == 5 ==> r == Ok::<ZAlphabet, ZmError>(ZAlphabet::A2Punctuation),
            !(4 <= shift_character <= 5) ==> r == Err::<ZAlphabet, ZmError>(
                ZmError::StringInvalidAlphabetShiftCharacter(shift_character),
            ),
    {
        match shift_character {
            4 => Ok(ZAlphabet::A1UpperCase),
            5 => Ok(ZAlphabet::A2Punctuation),
            _ => Err(ZmError::StringInvalidAlphabetShiftCharacter(shift_character)),
        }
    }

    /// The character this alphabet assigns to a Z-character.
    pub fn get_character(&self, character: ZCharacter, version: ZMachineVersion) -> (r: char)
        requires
            character < 32,
        ensures
            r == spec_alphabet_char(*self, version, character),
    {
        match self {
            ZAlphabet::A0LowerCase => if character >= 6 {
                (character + 91) as char
            } else {
                ' '
            },
            ZAlphabet::A1UpperCase => if character >= 6 {
                (character + 59) as char
            } else {
                ' '
            },
            ZAlphabet::A2Punctuation => if version.number() == 1 {
                a2_v1_char(character)
            } else {
                a2_char(character)
            },
        }
    }
}

/// The version 2 and later A2 table, executable form.
fn a2_char(c: u8) -> (r: char)
    ensures
        r == spec_a2_char(c),
{
    if c == 7 {
        '\n'
    } else if 8 <= c && c <= 17 {
        (c + 40) as char
    } else if c == 18 {
        '.'
    } else if c == 19 {
        ','
    } else if c == 20 {
        '!'
    } else if c == 21 {
        '?'
    } else if c == 22 {
        '_'
    } else if c == 23 {
        '#'
    } else if c == 24 {
        '\''
    } else if c == 25 {
        '"'
    } else if c == 26 {
        '/'
    } else if c == 27 {
        '\\'
    } else if c == 28 {
        '-'
    } else if c == 29 {
        ':'
    } else if c == 30 {
        '('
    } else if c == 31 {
        ')'
    } else {
        ' '
    }
}

/// The version 1 A2 table, executable form.
fn a2_v1_char(c: u8) -> (r: char)
    ensures
        r == spec_a2_v1_char(c),
{
    if 7 <= c && c <= 16 {
        (c + 41) as char
    } else if c == 17 {
        '.'
    } else if c == 18 {
        ','
    } else if c == 19 {
        '!'
    } else if c == 20 {
        '?'
    } else if c == 21 {
        '_'
    } else if c == 22 {
        '#'
    } else if c == 23 {
        '\''
    } else if c == 24 {
        '"'
    } else if c == 25 {
        '/'
    } else if c == 26 {
        '\\'
    } else if c == 27 {
        '<'
    } else if c == 28 {
        '-'
    } else if c == 29 {
        ':'
    } else if c == 30 {
        '('
    } else if c == 31 {
        ')'
    } else {
        ' '
    }
}

/// The character a ZSCII "extra character" code resolves to through the
/// default translation table of the standard: accented Latin letters and
/// punctuation for codes 155 to 223. Codes past the table's 69 entries,
/// up to 251, have no default translation and resolve to a question mark.
pub open spec fn spec_extra_char(code: u16) -> char {
    if code < 155 {
        '?'
    } else if code == 155 {
        '\u{e4}'
    } else if code == 156 {
        '\u{f6}'
    } else if code == 157 {
        '\u{fc}'
    } else if code == 158 {
        '\u{c4}'
    } else if code == 159 {
        '\u{d6}'
    } else if code == 160 {
        '\u{dc}'
    } else if code == 161 {
        '\u{df}'
    } else if code == 162 {
        '\u{bb}'
    } else if code == 163 {
        '\u{ab}'
    } else if code == 164 {
        '\u{eb}'
    } else if code == 165 {
        '\u{ef}'
    } else if code == 166 {
        '\u{ff}'
    } else if code == 167 {
        '\u{cb}'
    } else if code == 168 {
        '\u{cf}'
    } else if code == 169 {
        '\u{e1}'
    } else if code == 170 {
        '\u{e9}'
    } else if code == 171 {
        '\u{ed}'
    } else if code == 172 {
        '\u{f3}'
    } else if code == 173 {
        '\u{fa}'
    } else if code == 174 {
        '\u{fd}'
    } else if code == 175 {
        '\u{c1}'
    } else if code == 176 {
        '\u{c9}'
    } else if code == 177 {
        '\u{cd}'
    } else if code == 178 {
        '\u{d3}'
    } else if code == 179 {
        '\u{da}'
    } else if code == 180 {
        '\u{dd}'
    } else if code == 181 {
        '\u{e0}'
    } else if code == 182 {
        '\u{e8}'
    } else if code == 183 {
        '\u{ec}'
    } else if code == 184 {
        '\u{f2}'
    } else if code == 185 {
        '\u{f9}'
    } else if code == 186 {
        '\u{c0}'
    } else if code == 187 {
        '\u{c8}'
    } else if code == 188 {
        '\u{cc}'
    } else if code == 189 {
        '\u{d2}'
    } else if code == 190 {
        '\u{d9}'
    } else if code == 191 {
        '\u{e2}'
    } else if code == 192 {
        '\u{ea}'
    } else if code == 193 {
        '\u{ee}'
    } else if code == 194 {
        '\u{f4}'
    } else if code == 195 {
        '\u{fb}'
    } else if code == 196 {
        '\u{c2}'
    } else if code == 197 {
        '\u{ca}'
    } else if code == 198 {
        '\u{ce}'
    } else if code == 199 {
        '\u{d4}'
    } else if code == 200 {
        '\u{db}'
    } else if code == 201 {
        '\u{e5}'
    } else if code == 202 {
        '\u{c5}'
    } else if code == 203 {
        '\u{f8}'
    } else if code == 204 {
        '\u{d8}'
    } else if code == 205 {
        '\u{e3}'
    } else if code == 206 {
        '\u{f1}'
    } else if code == 207 {
        '\u{f5}'
    } else if code == 208 {
        '\u{c3}'
    } else if code == 209 {
        '\u{d1}'
    } else if code == 210 {
        '\u{d5}'
    } else if code == 211 {
        '\u{e6}'
    } else if code == 212 {
        '\u{c6}'
    } else if code == 213 {
        '\u{e7}'
    } else if code == 214 {
        '\u{c7}'
    } else if code == 215 {
        '\u{fe}'
    } else if code == 216 {
        '\u{f0}'
    } else if code == 217 {
        '\u{de}'
    } else if code == 218 {
        '\u{d0}'
    } else if code == 219 {
        '\u{a3}'
    } else if code == 220 {
        '\u{153}'
    } else if code == 221 {
        '\u{152}'
    } else if code == 222 {
        '\u{a1}'
    } else if code == 223 {
        '\u{bf}'
    } else {
        '?'
    }
}

/// The character a ZSCII extra-character code resolves to, executable form.
fn extra_char(code: u16) -> (r: char)
    ensures
        r == spec_extra_char(code),
{
    if code < 155 {
        '?'
    } else if code == 155 {
        '\u{e4}'
    } else if code == 156 {
        '\u{f6}'
    } else if code == 157 {
        '\u{fc}'
    } else if code == 158 {
        '\u{c4}'
    } else if code == 159 {
        '\u{d6}'
    } else if code == 160 {
        '\u{dc}'
    } else if code == 161 {
        '\u{df}'
    } else if code == 162 {
        '\u{bb}'
    } else if code == 163 {
        '\u{ab}'
    } else if code == 164 {
        '\u{eb}'
    } else if code == 165 {
        '\u{ef}'
    } else if code == 166 {
        '\u{ff}'
    } else if code == 167 {
        '\u{cb}'
    } else if code == 168 {
        '\u{cf}'
    } else if code == 169 {
        '\u{e1}'
    } else if code == 170 {
        '\u{e9}'
    } else if code == 171 {
        '\u{ed}'
    } else if code == 172 {
        '\u{f3}'
    } else if code == 173 {
        '\u{fa}'
    } else if code == 174 {
        '\u{fd}'
    } else if code == 175 {
        '\u{c1}'
    } else if code == 176 {
        '\u{c9}'
    } else if code == 177 {
        '\u{cd}'
    } else if code == 178 {
        '\u{d3}'
    } else if code == 179 {
        '\u{da}'
    } else if code == 180 {
        '\u{dd}'
    } else if code == 181 {
        '\u{e0}'
    } else if code == 182 {
        '\u{e8}'
    } else if code == 183 {
        '\u{ec}'
    } else if code == 184 {
        '\u{f2}'
    } else if code == 185 {
        '\u{f9}'
    } else if code == 186 {
        '\u{c0}'
    } else if code == 187 {
        '\u{c8}'
    } else if code == 188 {
        '\u{cc}'
    } else if code == 189 {
        '\u{d2}'
    } else if code == 190 {
        '\u{d9}'
    } else if code == 191 {
        '\u{e2}'
    } else if code == 192 {
        '\u{ea}'
    } else if code == 193 {
        '\u{ee}'
    } else if code == 194 {
        '\u{f4}'
    } else if code == 195 {
        '\u{fb}'
    } else if code == 196 {
        '\u{c2}'
    } else if code == 197 {
        '\u{ca}'
    } else if code == 198 {
        '\u{ce}'
    } else if code == 199 {
        '\u{d4}'
    } else if code == 200 {
        '\u{db}'
    } else if code == 201 {
        '\u{e5}'
    } else if code == 202 {
        '\u{c5}'
    } else if code == 203 {
        '\u{f8}'
    } else if code == 204 {
        '\u{d8}'
    } else if code == 205 {
        '\u{e3}'
    } else if code == 206 {
        '\u{f1}'
    } else if code == 207 {
        '\u{f5}'
    } else if code == 208 {
        '\u{c3}'
    } else if code == 209 {
        '\u{d1}'
    } else if code == 210 {
        '\u{d5}'
    } else if code == 211 {
        '\u{e6}'
    } else if code == 212 {
        '\u{c6}'
    } else if code == 213 {
        '\u{e7}'
    } else if code == 214 {
        '\u{c7}'
    } else if code == 215 {
        '\u{fe}'
    } else if code == 216 {
        '\u{f0}'
    } else if code == 217 {
        '\u{de}'
    } else if code == 218 {
        '\u{d0}'
    } else if code == 219 {
        '\u{a3}'
    } else if code == 220 {
        '\u{153}'
    } else if code == 221 {
        '\u{152}'
    } else if code == 222 {
        '\u{a1}'
    } else if code == 223 {
        '\u{bf}'
    } else {
        '?'
    }
}

/// What a ZSCII code is defined to produce on output: code 0 produces no
/// character, 13 is a new-line, 32 to 126 agree with ASCII, and 155 to 251
/// are the extra characters. Every other code is an invalid-code fault.
pub open spec fn spec_zscii_char(code: u16) -> Result<Option<char>, ZmError> {
    if code == 0 {
        Ok(None)
    } else if code == 13 {
        Ok(Some('\n'))
    } else if 32 <= code <= 126 {
        Ok(Some((code as u8) as char))
    } else if 155 <= code <= 251 {
        Ok(Some(spec_extra_char(code)))
    } else {
        Err(ZmError::StringInvalidZSCIICharacterCode(code))
    }
}

/// A ZSCII code: a 10-bit unsigned value in the machine's character set.
/// Story files may only legally use the defined values.
#[derive(Debug)]
pub struct ZSCII(pub u16);

impl ZSCII {
    /// The character this code produces on output: none for the null code 0,
    /// a new-line for 13, the agreeing ASCII character for 32 to 126, an
    /// extra character for 155 to 251, and an invalid-code fault for every
    /// other value.
    pub fn to_char(&self) -> (r: ZmResult<Option<char>>)
        ensures
            r == spec_zscii_char(self.0),
    {
        if self.0 == 0 {
            Ok(None)
        } else if self.0 == 13 {
            Ok(Some('\n'))
        } else if 32 <= self.0 && self.0 <= 126 {
            Ok(Some((self.0 as u8) as char))
        } else if 155 <= self.0 && self.0 <= 251 {
            Ok(Some(extra_char(self.0)))
        } else {
            Err(ZmError::StringInvalidZSCIICharacterCode(self.0))
        }
    }
}

/// A string of packed Z-characters.
#[derive(Debug)]
pub struct ZString {
    /// The unpacked 5-bit Z-characters, in reading order.
    pub content: Vec<ZCharacter>,
}

impl View for ZString {
    type V = Seq<u8>;

    open spec fn view(&self) -> Seq<u8> {
        self.content@
    }
}

/// The Z-characters unpacked from the words of `s` starting at byte index
/// `a`: three 5-bit characters per word, most significant first, up to and
/// including the word whose top bit is set. A word lying past the buffer end
/// is an out-of-bounds fault naming the first missing byte.
pub open spec fn spec_zstring_chars(s: Seq<u8>, a: int) -> Result<Seq<u8>, ZmError>
    decreases s.len() - a when 0 <= a
{
    if a + 1 >= s.len() {
        Err(
            ZmError::MemoryInvalidAccess(
                (if a < s.len() {
                    a + 1
                } else {
                    a
                }) as usize,
            ),
        )
    } else {
        let w = spec_word_at(s, a);
        let c1 = ((w >> 10) & 0x1F) as u8;
        let c2 = ((w >> 5) & 0x1F) as u8;
        let c3 = (w & 0x1F) as u8;
        if w & 0x8000 != 0 {
            Ok(seq![c1, c2, c3])
        } else {
            match spec_zstring_chars(s, a + 2) {
                Ok(rest) => Ok(seq![c1, c2, c3] + rest),
                Err(e) => Err(e),
            }
        }
    }
}

impl ZString {
    /// Every held Z-character fits in 5 bits.
    pub open spec fn wf(&self) -> bool {
        forall|j: int| 0 <= j < self@.len() ==> self@[j] < 32
    }

    /// The number of Z-characters in the string.
    pub fn len(&self) -> (n: usize)
        ensures
            n == self@.len(),
    {
        self.content.len()
    }

    /// Reads a packed string out of memory: words from the given address up
    /// to and including the word whose top bit is set.
    ///
    /// The address may be a byte address, or a relative word address naming
    /// twice its value; any other kind is an invalid-address fault. A word
    /// past the buffer end is an out-of-bounds fault.
    #[verifier::loop_isolation(false)]
    pub fn from_memory(memory: &ZMemory, address: ZMemoryAddress) -> (r: ZmResult<ZString>)
        ensures
            match address {
                ZMemoryAddress::Byte(a) => match spec_zstring_chars(memory@, a as int) {
                    Ok(cs) => r matches Ok(z) && z@ == cs && z.wf(),
                    Err(e) => r == Err::<ZString, ZmError>(e),
                },
                ZMemoryAddress::RelativeWord(w) => match spec_zstring_chars(
                    memory@,
                    2 * (w as int),
                ) {
                    Ok(cs) => r matches Ok(z) && z@ == cs && z.wf(),
                    Err(e) => r == Err::<ZString, ZmError>(e),
                },
                _ => r == Err::<ZString, ZmError>(ZmError::MemoryInvalidAddress(address)),
            },
    {
        let start: usize = match address {
            ZMemoryAddress::Byte(a) => a as usize,
            ZMemoryAddress::RelativeWord(w) => 2 * (w as usize),
            _ => {
                return Err(ZmError::MemoryInvalidAddress(address));
            },
        };
        let ghost s = memory@;
        let mut content: Vec<u8> = Vec::new();
        let mut idx: usize = start;
        proof {
            assert(content@ + Seq::<u8>::empty() =~= content@);
        }
        loop
            invariant
                memory@ == s,
                start <= idx,
                forall|j: int| 0 <= j < content@.len() ==> content@[j] < 32,
                match spec_zstring_chars(s, start as int) {
                    Ok(cs) => match spec_zstring_chars(s, idx as int) {
                        Ok(rest) => cs == content@ + rest,
                        Err(e) => false,
                    },
                    Err(e) => spec_zstring_chars(s, idx as int) == Err::<Seq<u8>, ZmError>(e),
                },
            decreases s.len() - idx,
        {
            if idx >= memory.buffer.len() {
                return Err(ZmError::MemoryInvalidAccess(idx));
            }
            if idx + 1 >= memory.buffer.len() {
                return Err(ZmError::MemoryInvalidAccess(idx + 1));
            }
            let hi = memory.buffer[idx];
            let lo = memory.buffer[idx + 1];
            let w: u16 = (hi as u16) * 256 + (lo as u16);
            proof {
                assert(((w >> 10) & 0x1F) < 32 && ((w >> 5) & 0x1F) < 32 && (w & 0x1F) < 32)
                    by (bit_vector);
            }
            let c1: u8 = ((w >> 10) & 0x1F) as u8;
            let c2: u8 = ((w >> 5) & 0x1F) as u8;
            let c3: u8 = (w & 0x1F) as u8;
            let ghost old_content = content@;
            content.push(c1);
            content.push(c2);
            content.push(c3);
            if w & 0x8000 != 0 {
                proof {
                    assert(old_content + seq![c1, c2, c3] =~= content@);
                }
                return Ok(ZString { content });
            }
            proof {
                if spec_zstring_chars(s, idx as int + 2) is Ok {
                    let rest = spec_zstring_chars(s, idx as int + 2)->Ok_0;
                    assert(old_content + (seq![c1, c2, c3] + rest) =~= content@ + rest);
                }
            }
            idx = idx + 2;
        }
    }
}

/// The abbreviations table: up to 96 entries of relative word addresses,
/// each naming a string that an abbreviation reference splices into the text
/// being decoded. Present from version 2; version 1 has none.
#[derive(Debug)]
pub struct ZAbbreviationsTable {
    /// The location of the table, from the header.
    pub address: ZMemoryAddress,
}

impl ZAbbreviationsTable {
    /// The abbreviations table of a story: none under version 1, and the
    /// table at the header's abbreviations location from version 2.
    pub fn from_memory_and_header(memory: &ZMemory, header: &ZMachineHeader) -> (r: ZmResult<
        Option<ZAbbreviationsTable>,
    >)
        requires
            header.wf(),
        ensures
            header.version.spec_number() == 1 ==> r == Ok::<
                Option<ZAbbreviationsTable>,
                ZmError,
            >(None),
            header.version.spec_number() >= 2 ==> (r matches Ok(Some(t)) && Some(t.address)
                == header.location_abbreviations_table),
    {
        if header.get_version().number() == 1 {
            return Ok(None);
        }
        match header.get_location_abbreviations_table() {
            Some(address) => Ok(Some(ZAbbreviationsTable { address })),
            None => vstd::pervasive::unreached(),
        }
    }
}

/// The alphabet the next translatable character is read through: the pending
/// one-character shift if there is one, else the locked alphabet.
pub open spec fn spec_current_alphabet(lock: ZAlphabet, temp: Option<ZAlphabet>) -> ZAlphabet {
    match temp {
        Some(a) => a,
        None => lock,
    }
}

/// Whether a Z-character triggers abbreviation expansion: character 1 in
/// version 2, characters 1 to 3 from version 3. Version 1 has none.
pub open spec fn spec_is_abbreviation_char(version: ZMachineVersion, c: u8) -> bool {
    (version.spec_number() == 2 && c == 1) || (version.spec_number() >= 3 && 1 <= c <= 3)
}

/// A character put before the outcome of decoding the remaining characters.
pub open spec fn spec_prepend_char(ch: char, r: Result<Seq<char>, ZmError>) -> Result<
    Seq<char>,
    ZmError,
> {
    match r {
        Ok(cs) => Ok(seq![ch] + cs),
        Err(e) => Err(e),
    }
}

/// What decoding Z-characters `chars` from position `i` yields, against
/// memory `mem` and an optional abbreviations-table location.
///
/// The walk keeps a locked alphabet (A0 at the start; shift locks of
/// versions 1 and 2 move it) and an optional one-character shift. Character
/// 0 is a space. Character 1 is a new-line in version 1 and an abbreviation
/// reference in version 2; characters 1 to 3 are abbreviation references
/// from version 3. In versions 1 and 2, characters 2 and 3 shift the current
/// alphabet forward and backward for one character, and 4 and 5 lock the
/// shift; from version 3, characters 4 and 5 select A1 and A2 for one
/// character. Character 6 in A2 is a ten-bit ZSCII escape built from the
/// next two characters; every other character from 6 is translated through
/// the current alphabet. An abbreviation reference selects entry
/// `32 * (z - 1) + x` of the table, whose word names a relative word
/// address; the string there is decoded with abbreviations forbidden, as the
/// architecture defines no nested abbreviations, and spliced in. A two- or
/// three-character construction cut short by the end of the string ends the
/// text quietly.
pub open spec fn spec_decode_zchars(
    version: ZMachineVersion,
    mem: Seq<u8>,
    abbrevs: Option<ZMemoryAddress>,
    allow_abbrev: bool,
    chars: Seq<u8>,
    i: int,
    lock: ZAlphabet,
    temp: Option<ZAlphabet>,
) -> Result<Seq<char>, ZmError>
    decreases
            (if allow_abbrev {
                1int
            } else {
                0int
            }),
            chars.len() - i,
        when 0 <= i
{
    if i >= chars.len() {
        Ok(Seq::<char>::empty())
    } else {
        let c = chars[i];
        if c == 0 {
            spec_prepend_char(
                ' ',
                spec_decode_zchars(version, mem, abbrevs, allow_abbrev, chars, i + 1, lock, None),
            )
        } else if version.spec_number() == 1 && c == 1 {
            spec_prepend_char(
                '\n',
                spec_decode_zchars(version, mem, abbrevs, allow_abbrev, chars, i + 1, lock, None),
            )
        } else if spec_is_abbreviation_char(version, c) {
            if i + 1 >= chars.len() {
                Ok(Seq::<char>::empty())
            } else if !allow_abbrev {
                Err(ZmError::StringIllegalAbbreviation(c))
            } else {
                match abbrevs {
                    None => Err(ZmError::StringIllegalAbbreviation(c)),
                    Some(ZMemoryAddress::Byte(t)) => {
                        let x = chars[i + 1];
                        let waddr = t + 2 * (32 * (c - 1) + x);
                        if waddr + 1 >= mem.len() {
                            Err(
                                ZmError::MemoryInvalidAccess(
                                    (if waddr < mem.len() {
                                        waddr + 1
                                    } else {
                                        waddr
                                    }) as usize,
                                ),
                            )
                        } else {
                            match spec_zstring_chars(mem, 2 * spec_word_at(mem, waddr)) {
                                Err(e) => Err(e),
                                Ok(nchars) => match spec_decode_zchars(
                                    version,
                                    mem,
                                    abbrevs,
                                    false,
                                    nchars,
                                    0,
                                    ZAlphabet::A0LowerCase,
                                    None,
                                ) {
                                    Err(e) => Err(e),
                                    Ok(expansion) => match spec_decode_zchars(
                                        version,
                                        mem,
                                        abbrevs,
                                        allow_abbrev,
                                        chars,
                                        i + 2,
                                        lock,
                                        None,
                                    ) {
                                        Err(e) => Err(e),
                                        Ok(rest) => Ok(expansion + rest),
                                    },
                                },
                            }
                        }
                    },
                    Some(other) => Err(ZmError::MemoryInvalidAddress(other)),
                }
            }
        } else if c <= 5 {
            if version.spec_number() <= 2 {
                let current = spec_current_alphabet(lock, temp);
                if c == 2 {
                    spec_decode_zchars(
                        version,
                        mem,
                        abbrevs,
                        allow_abbrev,
                        chars,
                        i + 1,
                        lock,
                        Some(spec_next_alphabet(current)),
                    )
                } else if c == 3 {
                    spec_decode_zchars(
                        version,
                        mem,
                        abbrevs,
                        allow_abbrev,
                        chars,
                        i + 1,
                        lock,
                        Some(spec_previous_alphabet(current)),
                    )
                } else if c == 4 {
                    spec_decode_zchars(
                        version,
                        mem,
                        abbrevs,
                        allow_abbrev,
                        chars,
                        i + 1,
                        spec_next_alphabet(current),
                        None,
                    )
                } else {
                    spec_decode_zchars(
                        version,
                        mem,
                        abbrevs,
                        allow_abbrev,
                        chars,
                        i + 1,
                        spec_previous_alphabet(current),
                        None,
                    )
                }
            } else {
                if c == 4 {
                    spec_decode_zchars(
                        version,
                        mem,
                        abbrevs,
                        allow_abbrev,
                        chars,
                        i + 1,
                        lock,
                        Some(ZAlphabet::A1UpperCase),
                    )
                } else {
                    spec_decode_zchars(
                        version,
                        mem,
                        abbrevs,
                        allow_abbrev,
                        chars,
                        i + 1,
                        lock,
                        Some(ZAlphabet::A2Punctuation),
                    )
                }
            }
        } else {
            let alpha = spec_current_alphabet(lock, temp);
            if alpha == ZAlphabet::A2Punctuation && c == 6 {
                if i + 2 >= chars.len() {
                    Ok(Seq::<char>::empty())
                } else {
                    let code = ((chars[i + 1] & 0x1F) as u16 * 32 + (chars[i + 2] & 0x1F) as u16)
                        as u16;
                    match spec_zscii_char(code) {
                        Err(e) => Err(e),
                        Ok(None) => spec_decode_zchars(
                            version,
                            mem,
                            abbrevs,
                            allow_abbrev,
                            chars,
                            i + 3,
                            lock,
                            None,
                        ),
                        Ok(Some(ch)) => spec_prepend_char(
                            ch,
                            spec_decode_zchars(
                                version,
                                mem,
                                abbrevs,
                                allow_abbrev,
                                chars,
                                i + 3,
                                lock,
                                None,
                            ),
                        ),
                    }
                }
            } else {
                spec_prepend_char(
                    spec_alphabet_char(alpha, version, c),
                    spec_decode_zchars(
                        version,
                        mem,
                        abbrevs,
                        allow_abbrev,
                        chars,
                        i + 1,
                        lock,
                        None,
                    ),
                )
            }
        }
    }
}

/// Relies on `String::push`: appends the character to the end of the string.
#[verifier::external_body]
fn push_char(s: &mut String, c: char)
    ensures
        final(s)@ == old(s)@.push(c),
{
    s.push(c);
}

/// Relies on `String::push_str`: appends the other string's characters, in
/// order, to the end of the string.
#[verifier::external_body]
fn push_string(s: &mut String, other: &String)
    ensures
        final(s)@ == old(s)@ + other@,
{
    s.push_str(other);
}

/// Decodes the single Z-character construction at position `i`, appending
/// whatever characters it produces to `out`: answers the position and
/// alphabet state the walk continues from, or the fault the construction
/// raises. An incomplete construction at the very end of the string finishes
/// the walk by answering the position past the end.
#[verifier::rlimit(100)]
fn decode_one(
    version: ZMachineVersion,
    memory: &ZMemory,
    abbrevs: Option<ZMemoryAddress>,
    allow_abbrev: bool,
    chars: &Vec<u8>,
    i: usize,
    lock: ZAlphabet,
    temp: Option<ZAlphabet>,
    out: &mut String,
) -> (r: ZmResult<(usize, ZAlphabet, Option<ZAlphabet>)>)
    requires
        forall|j: int| 0 <= j < chars@.len() ==> chars@[j] < 32,
        i < chars@.len(),
    ensures
        match r {
            Ok((i2, l2, t2)) => {
                &&& i < i2 <= chars@.len()
                &&& old(out)@.len() <= final(out)@.len()
                &&& final(out)@.take(old(out)@.len() as int) == old(out)@
                &&& spec_decode_zchars(
                    version,
                    memory@,
                    abbrevs,
                    allow_abbrev,
                    chars@,
                    i as int,
                    lock,
                    temp,
                ) == (match spec_decode_zchars(
                    version,
                    memory@,
                    abbrevs,
                    allow_abbrev,
                    chars@,
                    i2 as int,
                    l2,
                    t2,
                ) {
                    Ok(rest) => Ok::<Seq<char>, ZmError>(
                        final(out)@.skip(old(out)@.len() as int) + rest,
                    ),
                    Err(e) => Err::<Seq<char>, ZmError>(e),
                })
            },
            Err(e) => spec_decode_zchars(
                version,
                memory@,
                abbrevs,
                allow_abbrev,
                chars@,
                i as int,
                lock,
                temp,
            ) == Err::<Seq<char>, ZmError>(e),
        },
    decreases
            (if allow_abbrev {
                1int
            } else {
                0int
            }),
            0int,
{
    let ghost s = memory@;
    let ghost cq = chars@;
    let ghost pre = out@;
    let n = chars.len();
    let c = chars[i];
    if c == 0 {
        push_char(out, ' ');
        proof {
            assert(out@.take(pre.len() as int) =~= pre);
            assert(out@.skip(pre.len() as int) =~= seq![' ']);
        }
        Ok((i + 1, lock, None))
    } else if version.number() == 1 && c == 1 {
        push_char(out, '\n');
        proof {
            assert(out@.take(pre.len() as int) =~= pre);
            assert(out@.skip(pre.len() as int) =~= seq!['\n']);
        }
        Ok((i + 1, lock, None))
    } else if (version.number() == 2 && c == 1) || (version.number() >= 3 && 1 <= c && c <= 3) {
        if i + 1 >= chars.len() {
            proof {
                assert(out@.take(pre.len() as int) =~= pre);
                assert(out@.skip(pre.len() as int) =~= Seq::<char>::empty());
                assert(Seq::<char>::empty() + Seq::<char>::empty() =~= Seq::<char>::empty());
            }
            return Ok((chars.len(), lock, temp));
        }
        if !allow_abbrev {
            return Err(ZmError::StringIllegalAbbreviation(c));
        }
        let taddr = match abbrevs {
            None => {
                return Err(ZmError::StringIllegalAbbreviation(c));
            },
            Some(ZMemoryAddress::Byte(t)) => t,
            Some(other) => {
                return Err(ZmError::MemoryInvalidAddress(other));
            },
        };
        let x = chars[i + 1];
        let waddr: usize = (taddr as usize) + 2 * (32 * ((c - 1) as usize) + (x as usize));
        if waddr >= memory.buffer.len() {
            return Err(ZmError::MemoryInvalidAccess(waddr));
        }
        if waddr + 1 >= memory.buffer.len() {
            return Err(ZmError::MemoryInvalidAccess(waddr + 1));
        }
        let hi = memory.buffer[waddr];
        let lo = memory.buffer[waddr + 1];
        let w: u16 = (hi as u16) * 256 + (lo as u16);
        let nested = ZString::from_memory(memory, ZMemoryAddress::RelativeWord(w))?;
        let expansion = decode_chars(version, memory, abbrevs, false, &nested.content)?;
        push_string(out, &expansion);
        proof {
            assert(out@.take(pre.len() as int) =~= pre);
            assert(out@.skip(pre.len() as int) =~= expansion@);
        }
        Ok((i + 2, lock, None))
    } else if c <= 5 {
        let (lock2, temp2): (ZAlphabet, Option<ZAlphabet>) = if version.number() <= 2 {
            let current = match temp {
                Some(a) => a,
                None => lock,
            };
            if c == 2 {
                (lock, Some(current.next()))
            } else if c == 3 {
                (lock, Some(current.previous()))
            } else if c == 4 {
                (current.next(), None)
            } else {
                (current.previous(), None)
            }
        } else {
            if c == 4 {
                (lock, Some(ZAlphabet::A1UpperCase))
            } else {
                (lock, Some(ZAlphabet::A2Punctuation))
            }
        };
        proof {
            assert(out@.take(pre.len() as int) =~= pre);
            assert(out@.skip(pre.len() as int) =~= Seq::<char>::empty());
            let rest = spec_decode_zchars(
                version,
                s,
                abbrevs,
                allow_abbrev,
                cq,
                i as int + 1,
                lock2,
                temp2,
            );
            if rest is Ok {
                assert(Seq::<char>::empty() + rest->Ok_0 =~= rest->Ok_0);
            }
        }
        Ok((i + 1, lock2, temp2))
    } else {
        let alpha = match temp {
            Some(a) => a,
            None => lock,
        };
        if matches!(alpha, ZAlphabet::A2Punctuation) && c == 6 {
            if chars.len() - i <= 2 {
                proof {
                    assert(out@.take(pre.len() as int) =~= pre);
                    assert(out@.skip(pre.len() as int) =~= Seq::<char>::empty());
                    assert(Seq::<char>::empty() + Seq::<char>::empty() =~= Seq::<char>::empty());
                }
                return Ok((chars.len(), lock, temp));
            }
            let code: u16 = ((chars[i + 1] & 0x1F) as u16) * 32 + ((chars[i + 2] & 0x1F) as u16);
            let zscii = ZSCII(code);
            let produced = zscii.to_char()?;
            match produced {
                Some(ch) => {
                    push_char(out, ch);
                    proof {
                        assert(out@.take(pre.len() as int) =~= pre);
                        assert(out@.skip(pre.len() as int) =~= seq![ch]);
                    }
                },
                None => {
                    proof {
                        assert(out@.take(pre.len() as int) =~= pre);
                        assert(out@.skip(pre.len() as int) =~= Seq::<char>::empty());
                        let rest = spec_decode_zchars(
                            version,
                            s,
                            abbrevs,
                            allow_abbrev,
                            cq,
                            i as int + 3,
                            lock,
                            None,
                        );
                        if rest is Ok {
                            assert(Seq::<char>::empty() + rest->Ok_0 =~= rest->Ok_0);
                        }
                    }
                },
            }
            Ok((i + 3, lock, None))
        } else {
            let ch = alpha.get_character(c, version);
            push_char(out, ch);
            proof {
                assert(out@.take(pre.len() as int) =~= pre);
                assert(out@.skip(pre.len() as int) =~= seq![ch]);
            }
            Ok((i + 1, lock, None))
        }
    }
}

/// Decodes a sequence of 5-bit Z-characters against memory and an optional
/// abbreviations location. `allow_abbrev` is false while an abbreviation is
/// being expanded: the architecture defines no nested abbreviations, and a
/// nested reference is rejected.
#[verifier::rlimit(50)]
fn decode_chars(
    version: ZMachineVersion,
    memory: &ZMemory,
    abbrevs: Option<ZMemoryAddress>,
    allow_abbrev: bool,
    chars: &Vec<u8>,
) -> (r: ZmResult<String>)
    requires
        forall|j: int| 0 <= j < chars@.len() ==> chars@[j] < 32,
    ensures
        match spec_decode_zchars(
            version,
            memory@,
            abbrevs,
            allow_abbrev,
            chars@,
            0,
            ZAlphabet::A0LowerCase,
            None,
        ) {
            Ok(cs) => r matches Ok(st) && st@ == cs,
            Err(e) => r == Err::<String, ZmError>(e),
        },
    decreases
            (if allow_abbrev {
                1int
            } else {
                0int
            }),
            1int,
{
    let ghost s = memory@;
    let ghost cq = chars@;
    let ghost d0 = spec_decode_zchars(
        version,
        s,
        abbrevs,
        allow_abbrev,
        cq,
        0,
        ZAlphabet::A0LowerCase,
        None,
    );
    let mut out = String::new();
    let mut lock = ZAlphabet::A0LowerCase;
    let mut temp: Option<ZAlphabet> = None;
    let mut i: usize = 0;
    proof {
        if d0 is Ok {
            assert(Seq::<char>::empty() + d0->Ok_0 =~= d0->Ok_0);
        }
    }
    while i < chars.len()
        invariant
            i <= cq.len(),
            chars@ == cq,
            memory@ == s,
            forall|j: int| 0 <= j < cq.len() ==> cq[j] < 32,
            d0 == spec_decode_zchars(
                version,
                s,
                abbrevs,
                allow_abbrev,
                cq,
                0,
                ZAlphabet::A0LowerCase,
                None,
            ),
            match spec_decode_zchars(
                version,
                s,
                abbrevs,
                allow_abbrev,
                cq,
                i as int,
                lock,
                temp,
            ) {
                Ok(cs) => d0 matches Ok(full) && full == out@ + cs,
                Err(e) => d0 == Err::<Seq<char>, ZmError>(e),
            },
        decreases cq.len() - i,
    {
        let ghost old_out = out@;
        let step = decode_one(
            version,
            memory,
            abbrevs,
            allow_abbrev,
            chars,
            i,
            lock,
            temp,
            &mut out,
        );
        match step {
            Ok((i2, l2, t2)) => {
                proof {
                    let added = out@.skip(old_out.len() as int);
                    assert(old_out + added =~= out@);
                    let rest = spec_decode_zchars(
                        version,
                        s,
                        abbrevs,
                        allow_abbrev,
                        cq,
                        i2 as int,
                        l2,
                        t2,
                    );
                    if rest is Ok {
                        assert(old_out + (added + rest->Ok_0) =~= out@ + rest->Ok_0);
                    }
                }
                i = i2;
                lock = l2;
                temp = t2;
            },
            Err(e) => {
                return Err(e);
            },
        }
    }
    proof {
        if d0 is Ok {
            assert(out@ + Seq::<char>::empty() =~= out@);
        }
    }
    Ok(out)
}

impl ZString {
    /// Decodes the string to text: walks the Z-characters left to right,
    /// maintaining the current alphabet, expanding abbreviation references
    /// through the given table, and mapping through ZSCII.
    ///
    /// Decoding starts in alphabet A0 with no pending shift. An abbreviation
    /// reference with no table at hand, or inside another abbreviation, is
    /// an illegal-abbreviation fault; an invalid ZSCII escape is an
    /// invalid-code fault; a reference past the buffer end is an
    /// out-of-bounds fault. An incomplete construction at the very end of
    /// the string ends the text quietly.
    pub fn decode(
        &self,
        version: ZMachineVersion,
        memory: &ZMemory,
        abbreviations_table: Option<&ZAbbreviationsTable>,
    ) -> (r: ZmResult<String>)
        requires
            self.wf(),
        ensures
            ({
                let ab = match abbreviations_table {
                    Some(t) => Some(t.address),
                    None => None::<ZMemoryAddress>,
                };
                match spec_decode_zchars(
                    version,
                    memory@,
                    ab,
                    true,
                    self@,
                    0,
                    ZAlphabet::A0LowerCase,
                    None,
                ) {
                    Ok(cs) => r matches Ok(st) && st@ == cs,
                    Err(e) => r == Err::<String, ZmError>(e),
                }
            }),
    {
        let ab: Option<ZMemoryAddress> = match abbreviations_table {
            Some(t) => Some(t.address),
            None => None,
        };
        decode_chars(version, memory, ab, true, &self.content)
    }
}

} // verus!
