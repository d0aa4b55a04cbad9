//! The object database: the objects table with its property defaults, the
//! per-object records, and their property lists.
//!
//! Objects are numbered consecutively from 1 upward; number 0 means
//! "nothing". Up to version 3 each object is a 9-byte record: 32 attribute
//! flags in 4 bytes, the parent, sibling and child indices in 1 byte each,
//! and the 2-byte address of the object's property table. A property table
//! starts with a text-length byte and the object's short name, that many
//! 2-byte words of packed text, followed by the properties in descending
//! number order, terminated by a zero size byte. Versions 4 and later use a
//! wider record and a two-byte property encoding that this database reserves
//! and rejects as unsupported.

use vstd::prelude::*;

use crate::errors::{ZmError, ZmResult};
use crate::zmachine::header::{ZMachineHeader, ZMachineVersion};
use crate::zmemory::{spec_word_at, word_hi, word_lo, ZMemory, ZMemoryAddress};
use crate::zstring::ZString;

verus! {

/// Size of object records up to version 3, in bytes.
pub const ZOBJECT_LEGACY_SIZE: u16 = 9;

/// The number of property-defaults entries: 31 words up to version 3, 63
/// from version 4.
pub open spec fn spec_defaults_count(version: ZMachineVersion) -> int {
    if version.spec_number() >= 4 {
        63
    } else {
        31
    }
}

/// The objects table, held in dynamic memory: the property-defaults array
/// followed by the per-object entries. Reading an absent property of any
/// object yields the matching defaults entry.
#[derive(Debug)]
pub struct ZObjectsTable {
    /// The location of the table, from the header.
    pub address: ZMemoryAddress,
    /// The property-defaults words, one per property number from 1 upward.
    pub property_defaults: Vec<u16>,
}

impl ZObjectsTable {
    /// Reads the objects table named by the header: its location and the
    /// property-defaults array at the start of the table.
    ///
    /// Fails with an out-of-bounds fault naming the first missing byte when
    /// the defaults array runs past the buffer end, and with an
    /// invalid-address fault when the header's table location is not a byte
    /// address.
    #[verifier::loop_isolation(false)]
    pub fn from_memory_and_header(memory: &ZMemory, header: &ZMachineHeader) -> (r: ZmResult<
        ZObjectsTable,
    >)
        ensures
            match header.location_object_table {
                ZMemoryAddress::Byte(b) => {
                    let n = spec_defaults_count(header.version);
                    if b + 2 * n <= memory@.len() {
                        &&& r matches Ok(t)
                        &&& t.address == header.location_object_table
                        &&& t.property_defaults@.len() == n
                        &&& forall|k: int|
                            0 <= k < n ==> t.property_defaults@[k] == spec_word_at(
                                memory@,
                                b + 2 * k,
                            )
                    } else {
                        r == Err::<ZObjectsTable, ZmError>(
                            ZmError::MemoryInvalidAccess(
                                if b as int > memory@.len() {
                                    b as usize
                                } else {
                                    memory@.len() as usize
                                },
                            ),
                        )
                    }
                },
                _ => r == Err::<ZObjectsTable, ZmError>(
                    ZmError::MemoryInvalidAddress(header.location_object_table),
                ),
            },
    {
        let address = header.get_location_object_table();
        let b = address.as_byte()? as usize;
        let n: usize = if header.get_version().number() >= 4 {
            63
        } else {
            31
        };
        let len = memory.len();
        if b > len || 2 * n > len - b {
            return Err(
                ZmError::MemoryInvalidAccess(
                    if b > len {
                        b
                    } else {
                        len
                    },
                ),
            );
        }
        let mut property_defaults: Vec<u16> = Vec::new();
        let mut k: usize = 0;
        while k < n
            invariant
                k <= n,
                property_defaults@.len() == k,
                forall|j: int|
                    0 <= j < k ==> property_defaults@[j] == spec_word_at(memory@, b + 2 * j),
            decreases n - k,
        {
            let idx = b + 2 * k;
            let hi = memory.buffer[idx];
            let lo = memory.buffer[idx + 1];
            property_defaults.push((hi as u16) * 256 + (lo as u16));
            k = k + 1;
        }
        Ok(ZObjectsTable { address, property_defaults })
    }
}

/// A property of an object, at the specification level.
pub struct SpecZObjectProperty {
    /// The byte index of the property's size byte.
    pub address: int,
    /// The property number, from 1 upward.
    pub index: u8,
    /// The number of data bytes: 1 to 8 up to version 3.
    pub length: u8,
    /// The property's data bytes.
    pub data: Seq<u8>,
}

/// A property of an object: up to version 3, a size byte arranged as 32
/// times the number of data bytes minus one, plus the property number, then
/// the data. A property list is terminated by a zero size byte, and any
/// other size byte that is a multiple of 32 is malformed.
#[derive(Debug)]
pub struct ZObjectProperty {
    /// The byte index of the property's size byte.
    pub address: usize,
    /// The property number, from 1 upward.
    pub index: u8,
    /// The number of data bytes: 1 to 8 up to version 3.
    pub length: u8,
    /// The property's data bytes.
    pub data: Vec<u8>,
}

/// Whether an executable property value carries exactly the decoded property.
pub open spec fn spec_property_matches(p: ZObjectProperty, q: SpecZObjectProperty) -> bool {
    &&& p.address == q.address
    &&& p.index == q.index
    &&& p.length == q.length
    &&& p.data@ == q.data
}

/// What reading the property block at byte index `a` yields, for the
/// property expected to have number `number`: the size byte must encode that
/// number (a size byte that is a multiple of 32, or one encoding another
/// number, is a malformed-size fault), and the data bytes follow it.
pub open spec fn spec_property_at(s: Seq<u8>, a: int, number: u8) -> Result<
    SpecZObjectProperty,
    ZmError,
> {
    if a >= s.len() {
        Err(ZmError::MemoryInvalidAccess(a as usize))
    } else {
        let size = s[a];
        if size % 32 == 0 || size % 32 != number {
            Err(ZmError::ObjectInvalidPropertySize(size))
        } else {
            let length = size / 32 + 1;
            if a + 1 + length > s.len() {
                Err(ZmError::MemoryInvalidAccess(s.len() as usize))
            } else {
                Ok(
                    SpecZObjectProperty {
                        address: a,
                        index: number,
                        length: length as u8,
                        data: s.subrange(a + 1, a + 1 + length),
                    },
                )
            }
        }
    }
}

/// The property list starting at byte index `q`: properties one after the
/// other, each sized by its size byte, up to a zero size byte. A size byte
/// that is a nonzero multiple of 32 is a malformed-size fault, and a list
/// running past the buffer end an out-of-bounds fault.
pub open spec fn spec_walk_properties(s: Seq<u8>, q: int) -> Result<
    Seq<SpecZObjectProperty>,
    ZmError,
>
    decreases s.len() - q when 0 <= q
{
    if q >= s.len() {
        Err(ZmError::MemoryInvalidAccess(q as usize))
    } else {
        let size = s[q];
        if size == 0 {
            Ok(Seq::<SpecZObjectProperty>::empty())
        } else if size % 32 == 0 {
            Err(ZmError::ObjectInvalidPropertySize(size))
        } else {
            match spec_property_at(s, q, (size % 32) as u8) {
                Err(e) => Err(e),
                Ok(p) => match spec_walk_properties(s, q + 1 + p.length) {
                    Ok(rest) => Ok(seq![p] + rest),
                    Err(e) => Err(e),
                },
            }
        }
    }
}

/// The Z-characters of `nwords` consecutive text words starting at byte
/// index `a`, three per word. Meaningful when the words lie inside the
/// buffer.
pub open spec fn spec_name_chars(s: Seq<u8>, a: int, nwords: int) -> Seq<u8>
    decreases nwords when 0 <= nwords
{
    if nwords <= 0 {
        Seq::<u8>::empty()
    } else {
        let w = spec_word_at(s, a);
        seq![((w >> 10) & 0x1F) as u8, ((w >> 5) & 0x1F) as u8, (w & 0x1F) as u8]
            + spec_name_chars(s, a + 2, nwords - 1)
    }
}

/// A decoded object, at the specification level.
pub struct SpecZObject {
    /// The 32 attribute flags, packed most significant word first.
    pub attribute_flags: u32,
    /// The object number of the parent; 0 for a root.
    pub parent_index: u8,
    /// The object number of the next child of the same parent; 0 for the last.
    pub sibling_index: u8,
    /// The object number of the first child; 0 for none.
    pub child_index: u8,
    /// The byte index of the object's property table.
    pub properties_address: int,
    /// The number of 2-byte words of the object's short name.
    pub text_length: int,
    /// The Z-characters of the object's short name.
    pub name_chars: Seq<u8>,
    /// The properties, in the order they are stored.
    pub properties: Seq<SpecZObjectProperty>,
}

/// What decoding the 9-byte object record at byte index `a` yields, up to
/// version 3: the attribute flags, the three tree links, and the property
/// table it points at, whose short name and property list follow their
/// stored lengths. Versions 4 and later are reserved and unsupported.
pub open spec fn spec_object_at(s: Seq<u8>, a: int, version: ZMachineVersion) -> Result<
    SpecZObject,
    ZmError,
> {
    if version.spec_number() > 3 {
        Err(ZmError::MachineUnsupportedVersion(version))
    } else if a + 9 > s.len() {
        Err(
            ZmError::MemoryInvalidAccess(
                (if a > s.len() {
                    a
                } else {
                    s.len() as int
                }) as usize,
            ),
        )
    } else {
        let ptab = spec_word_at(s, a + 7) as int;
        if ptab >= s.len() {
            Err(ZmError::MemoryInvalidAccess(ptab as usize))
        } else {
            let tl = s[ptab] as int;
            if ptab + 1 + 2 * tl > s.len() {
                Err(ZmError::MemoryInvalidAccess(s.len() as usize))
            } else {
                match spec_walk_properties(s, ptab + 1 + 2 * tl) {
                    Err(e) => Err(e),
                    Ok(props) => Ok(
                        SpecZObject {
                            attribute_flags: ((spec_word_at(s, a) as u32) * 0x10000 + spec_word_at(
                                s,
                                a + 2,
                            ) as u32) as u32,
                            parent_index: s[a + 4],
                            sibling_index: s[a + 5],
                            child_index: s[a + 6],
                            properties_address: ptab,
                            text_length: tl,
                            name_chars: spec_name_chars(s, ptab + 1, tl),
                            properties: props,
                        },
                    ),
                }
            }
        }
    }
}

/// Reads the single property block at byte index `a`, checking that its size
/// byte encodes property number `number`.
fn read_property_at(memory: &ZMemory, a: usize, number: u8) -> (r: ZmResult<ZObjectProperty>)
    ensures
        match spec_property_at(memory@, a as int, number) {
            Ok(p) => r matches Ok(q) && spec_property_matches(q, p),
            Err(e) => r == Err::<ZObjectProperty, ZmError>(e),
        },
{
    let len = memory.buffer.len();
    if a >= len {
        return Err(ZmError::MemoryInvalidAccess(a));
    }
    let size = memory.buffer[a];
    if size % 32 == 0 || size % 32 != number {
        return Err(ZmError::ObjectInvalidPropertySize(size));
    }
    let length = size / 32 + 1;
    if (length as usize) > len - (a + 1) {
        return Err(ZmError::MemoryInvalidAccess(len));
    }
    let mut data: Vec<u8> = Vec::new();
    let mut k: usize = 0;
    while k < length as usize
        invariant
            k <= length,
            a + 1 + length <= memory@.len(),
            memory@.len() == len,
            data@ == memory@.subrange(a + 1, a + 1 + k),
        decreases length - k,
    {
        data.push(memory.buffer[a + 1 + k]);
        proof {
            assert(memory@.subrange(a as int + 1, a as int + 1 + k + 1) =~= memory@.subrange(
                a as int + 1,
                a as int + 1 + k,
            ).push(memory@[a as int + 1 + k]));
        }
        k = k + 1;
    }
    Ok(ZObjectProperty { address: a, index: number, length, data })
}

/// Objects are stored in a tree-like fashion: each object has a parent, a
/// sibling (the next child of the parent) and children, all named by object
/// number. An individual object is a collection of variables: 32 flag-like
/// attributes, numbered from 0, and numbered properties, from 1. The links
/// are plain indices over externally mutable memory, so tree integrity (no
/// cycles, one parent per object) is a validation concern for callers, not
/// an invariant this record can enforce.
#[derive(Debug)]
pub struct ZObject {
    /// The 32 attribute flags, packed most significant word first.
    pub attribute_flags: u32,
    /// The address the record was read from.
    pub address: ZMemoryAddress,
    /// This object's number, from 1 upward.
    pub index: u8,
    /// The object number of the parent; 0 for a root.
    pub parent_index: u8,
    /// The object number of the next child of the same parent; 0 for the last.
    pub sibling_index: u8,
    /// The object number of the first child; 0 for none.
    pub child_index: u8,
    /// The number of 2-byte words of the short name.
    pub text_length: Option<usize>,
    /// The short name, as packed text.
    pub text: Option<ZString>,
    /// The properties, in the order they are stored: descending numbers in a
    /// well-formed story.
    pub properties: Vec<ZObjectProperty>,
}

impl ZObject {
    /// Decodes the object record at the given byte address: the attribute
    /// flags, the tree links, the short name and the property list.
    ///
    /// Fails with an unsupported-version fault from version 4 (whose wider
    /// record layout is reserved), an invalid-address fault on a non-byte
    /// address, an out-of-bounds fault when the record, the name or a
    /// property runs past the buffer end, and a malformed-size fault on a
    /// property size byte that is a nonzero multiple of 32.
    #[verifier::loop_isolation(false)]
    #[verifier::rlimit(50)]
    pub fn from_memory(
        memory: &ZMemory,
        index: u8,
        address: ZMemoryAddress,
        version: ZMachineVersion,
    ) -> (r: ZmResult<ZObject>)
        ensures
            match address {
                ZMemoryAddress::Byte(a) => match spec_object_at(memory@, a as int, version) {
                    Ok(ob) => {
                        &&& r matches Ok(o)
                        &&& o.attribute_flags == ob.attribute_flags
                        &&& o.address == address
                        &&& o.index == index
                        &&& o.parent_index == ob.parent_index
                        &&& o.sibling_index == ob.sibling_index
                        &&& o.child_index == ob.child_index
                        &&& o.text_length == Some(ob.text_length as usize)
                        &&& (o.text matches Some(z) && z@ == ob.name_chars && z.wf())
                        &&& o.properties@.len() == ob.properties.len()
                        &&& forall|k: int|
                            0 <= k < ob.properties.len() ==> spec_property_matches(
                                #[trigger] o.properties@[k],
                                ob.properties[k],
                            )
                    },
                    Err(e) => r == Err::<ZObject, ZmError>(e),
                },
                _ => r == Err::<ZObject, ZmError>(ZmError::MemoryInvalidAddress(address)),
            },
    {
        let a = address.as_byte()? as usize;
        if version.number() > 3 {
            return Err(ZmError::MachineUnsupportedVersion(version));
        }
        let len = memory.len();
        if a > len || 9 > len - a {
            return Err(
                ZmError::MemoryInvalidAccess(
                    if a > len {
                        a
                    } else {
                        len
                    },
                ),
            );
        }
        let attribute_flags: u32 = (((memory.buffer[a] as u32) * 256 + (memory.buffer[a + 1]
            as u32)) * 0x10000) + ((memory.buffer[a + 2] as u32) * 256 + (memory.buffer[a + 3]
            as u32));
        let parent_index = memory.buffer[a + 4];
        let sibling_index = memory.buffer[a + 5];
        let child_index = memory.buffer[a + 6];
        let ptab = ((memory.buffer[a + 7] as usize) * 256) + (memory.buffer[a + 8] as usize);
        if ptab >= len {
            return Err(ZmError::MemoryInvalidAccess(ptab));
        }
        let tl = memory.buffer[ptab] as usize;
        if 2 * tl > len - (ptab + 1) {
            return Err(ZmError::MemoryInvalidAccess(len));
        }
        // the short name: three Z-characters out of each of its words
        let mut name: Vec<u8> = Vec::new();
        let mut k: usize = 0;
        proof {
            assert(name@ + spec_name_chars(memory@, ptab as int + 1, tl as int) =~= spec_name_chars(
                memory@,
                ptab as int + 1,
                tl as int,
            ));
        }
        while k < tl
            invariant
                k <= tl,
                name@.len() == 3 * k,
                forall|j: int| 0 <= j < name@.len() ==> name@[j] < 32,
                spec_name_chars(memory@, ptab as int + 1, tl as int) == name@ + spec_name_chars(
                    memory@,
                    ptab as int + 1 + 2 * k,
                    tl as int - k,
                ),
            decreases tl - k,
        {
            let idx = ptab + 1 + 2 * k;
            let hi = memory.buffer[idx];
            let lo = memory.buffer[idx + 1];
            let w: u16 = (hi as u16) * 256 + (lo as u16);
            proof {
                assert(((w >> 10) & 0x1F) < 32 && ((w >> 5) & 0x1F) < 32 && (w & 0x1F) < 32)
                    by (bit_vector);
            }
            let c1: u8 = ((w >> 10) & 0x1F) as u8;
            let c2: u8 = ((w >> 5) & 0x1F) as u8;
            let c3: u8 = (w & 0x1F) as u8;
            let ghost old_name = name@;
            name.push(c1);
            name.push(c2);
            name.push(c3);
            proof {
                assert(old_name + (seq![c1, c2, c3] + spec_name_chars(
                    memory@,
                    ptab as int + 1 + 2 * (k + 1),
                    tl as int - (k + 1),
                )) =~= name@ + spec_name_chars(
                    memory@,
                    ptab as int + 1 + 2 * (k + 1),
                    tl as int - (k + 1),
                ));
            }
            k = k + 1;
        }
        proof {
            assert(name@ + Seq::<u8>::empty() =~= name@);
        }
        // the property list, walked to its zero size byte
        let mut properties: Vec<ZObjectProperty> = Vec::new();
        let ghost mut mirror: Seq<SpecZObjectProperty> = Seq::empty();
        let qstart = ptab + 1 + 2 * tl;
        let mut q = qstart;
        let mut done = false;
        proof {
            assert(mirror + Seq::<SpecZObjectProperty>::empty() =~= mirror);
        }
        while !done
            invariant
                qstart <= q,
                properties@.len() == mirror.len(),
                forall|j: int|
                    0 <= j < mirror.len() ==> spec_property_matches(
                        #[trigger] properties@[j],
                        mirror[j],
                    ),
                !done ==> match spec_walk_properties(memory@, qstart as int) {
                    Ok(all) => spec_walk_properties(memory@, q as int) matches Ok(rest) && all
                        == mirror + rest,
                    Err(e) => spec_walk_properties(memory@, q as int) == Err::<
                        Seq<SpecZObjectProperty>,
                        ZmError,
                    >(e),
                },
                done ==> spec_walk_properties(memory@, qstart as int) == Ok::<
                    Seq<SpecZObjectProperty>,
                    ZmError,
                >(mirror),
            decreases
                    memory@.len() - q + (if done {
                        0int
                    } else {
                        1int
                    }),
        {
            if q >= len {
                return Err(ZmError::MemoryInvalidAccess(q));
            }
            let size = memory.buffer[q];
            if size == 0 {
                proof {
                    assert(mirror + Seq::<SpecZObjectProperty>::empty() =~= mirror);
                }
                done = true;
            } else if size % 32 == 0 {
                return Err(ZmError::ObjectInvalidPropertySize(size));
            } else {
                let prop = read_property_at(memory, q, size % 32)?;
                let advance = prop.length;
                let ghost spec_prop = spec_property_at(memory@, q as int, size % 32)->Ok_0;
                let ghost old_mirror = mirror;
                properties.push(prop);
                proof {
                    mirror = mirror.push(spec_prop);
                    assert(mirror =~= old_mirror + seq![spec_prop]);
                    if spec_walk_properties(memory@, q as int + 1 + spec_prop.length) is Ok {
                        let rest = spec_walk_properties(
                            memory@,
                            q as int + 1 + spec_prop.length,
                        )->Ok_0;
                        assert(old_mirror + (seq![spec_prop] + rest) =~= mirror + rest);
                    }
                }
                q = q + 1 + advance as usize;
            }
        }
        Ok(
            ZObject {
                attribute_flags,
                address,
                index,
                parent_index,
                sibling_index,
                child_index,
                text_length: Some(tl),
                text: Some(ZString { content: name }),
                properties,
            },
        )
    }
}

/// The first property of the list carrying the given number, in stored
/// order.
pub open spec fn spec_find_property(props: Seq<ZObjectProperty>, number: u8) -> Option<
    ZObjectProperty,
>
    decreases props.len(),
{
    if props.len() == 0 {
        None
    } else if props[0].index == number {
        Some(props[0])
    } else {
        spec_find_property(props.skip(1), number)
    }
}

impl ZObject {
    /// Looks up property `number`: the object's own property when it has
    /// one, else a property carrying the defaults-table entry for that
    /// number as its two data bytes.
    ///
    /// Requesting property 0 or a number past the defaults table is an
    /// invalid-number fault.
    #[verifier::loop_isolation(false)]
    pub fn get_property(&self, objects_table: &ZObjectsTable, number: u8) -> (r: ZmResult<
        ZObjectProperty,
    >)
        ensures
            number == 0 || number > objects_table.property_defaults@.len() ==> r == Err::<
                ZObjectProperty,
                ZmError,
            >(ZmError::ObjectInvalidPropertyNumber(number)),
            1 <= number <= objects_table.property_defaults@.len() ==> match spec_find_property(
                self.properties@,
                number,
            ) {
                Some(p) => r matches Ok(q) && q.address == p.address && q.index == p.index
                    && q.length == p.length && q.data@ == p.data@,
                None => match objects_table.address {
                    ZMemoryAddress::Byte(b) => {
                        let d = objects_table.property_defaults@[number - 1];
                        &&& r matches Ok(q)
                        &&& q.address == b + 2 * (number - 1)
                        &&& q.index == number
                        &&& q.length == 2
                        &&& q.data@ == seq![word_hi(d), word_lo(d)]
                    },
                    _ => r == Err::<ZObjectProperty, ZmError>(
                        ZmError::MemoryInvalidAddress(objects_table.address),
                    ),
                },
            },
    {
        if number == 0 || (number as usize) > objects_table.property_defaults.len() {
            return Err(ZmError::ObjectInvalidPropertyNumber(number));
        }
        let mut j: usize = 0;
        proof {
            assert(self.properties@.skip(0) =~= self.properties@);
        }
        while j < self.properties.len()
            invariant
                j <= self.properties@.len(),
                spec_find_property(self.properties@, number) == spec_find_property(
                    self.properties@.skip(j as int),
                    number,
                ),
            decreases self.properties@.len() - j,
        {
            proof {
                assert(self.properties@.skip(j as int).len() > 0);
                assert(self.properties@.skip(j as int)[0] == self.properties@[j as int]);
                assert(self.properties@.skip(j as int).skip(1) =~= self.properties@.skip(
                    j as int + 1,
                ));
            }
            if self.properties[j].index == number {
                let p = &self.properties[j];
                let mut data: Vec<u8> = Vec::new();
                let mut k: usize = 0;
                while k < p.data.len()
                    invariant
                        k <= p.data@.len(),
                        data@ == p.data@.take(k as int),
                    decreases p.data@.len() - k,
                {
                    data.push(p.data[k]);
                    proof {
                        assert(p.data@.take(k as int + 1) =~= p.data@.take(k as int).push(
                            p.data@[k as int],
                        ));
                    }
                    k = k + 1;
                }
                proof {
                    assert(p.data@.take(p.data@.len() as int) =~= p.data@);
                }
                return Ok(
                    ZObjectProperty {
                        address: p.address,
                        index: p.index,
                        length: p.length,
                        data,
                    },
                );
            }
            j = j + 1;
        }
        proof {
            assert(self.properties@.skip(j as int) =~= Seq::<ZObjectProperty>::empty());
        }
        let d = objects_table.property_defaults[(number - 1) as usize];
        let b = objects_table.address.as_byte()?;
        let mut data: Vec<u8> = Vec::new();
        data.push((d / 256) as u8);
        data.push((d % 256) as u8);
        proof {
            assert(data@ =~= seq![word_hi(d), word_lo(d)]);
        }
        Ok(
            ZObjectProperty {
                address: (b as usize) + 2 * ((number - 1) as usize),
                index: number,
                length: 2,
                data,
            },
        )
    }
}

impl ZObjectProperty {
    /// Reads the single property block at the given byte address, checking
    /// that its size byte encodes `property_number`.
    ///
    /// Fails with an unsupported-version fault from version 4 (whose wider
    /// property encoding is reserved), an invalid-address fault on a
    /// non-byte address, a malformed-size fault on a size byte that encodes
    /// another number or is a multiple of 32, and an out-of-bounds fault
    /// when the block runs past the buffer end.
    pub fn from_memory(
        property_number: u8,
        address: ZMemoryAddress,
        memory: &ZMemory,
        version: ZMachineVersion,
    ) -> (r: ZmResult<ZObjectProperty>)
        ensures
            version.spec_number() > 3 ==> r == Err::<ZObjectProperty, ZmError>(
                ZmError::MachineUnsupportedVersion(version),
            ),
            version.spec_number() <= 3 ==> match address {
                ZMemoryAddress::Byte(a) => match spec_property_at(
                    memory@,
                    a as int,
                    property_number,
                ) {
                    Ok(p) => r matches Ok(q) && spec_property_matches(q, p),
                    Err(e) => r == Err::<ZObjectProperty, ZmError>(e),
                },
                _ => r == Err::<ZObjectProperty, ZmError>(ZmError::MemoryInvalidAddress(address)),
            },
    {
        if version.number() > 3 {
            return Err(ZmError::MachineUnsupportedVersion(version));
        }
        let a = address.as_byte()?;
        read_property_at(memory, a as usize, property_number)
    }
}

} // verus!
