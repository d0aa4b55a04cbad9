use rustifzm::zmachine::header::{ZMachineHeader, ZMachineVersion};
use rustifzm::zmemory::{ZMemory, ZMemoryAddress};
use rustifzm::zobjects::{ZObject, ZObjectProperty, ZObjectsTable};
use rustifzm::ZmError;

/// A small image: a property-defaults table of 31 words at 0x40, one object
/// record at 0x80, and its property table at 0x90.
fn object_image() -> Vec<u8> {
    let mut image = vec![0u8; 0x100];
    // defaults: entry for property n holds 0x1100 + n
    for n in 1..=31u16 {
        let at = 0x40 + 2 * (n as usize - 1);
        image[at] = 0x11;
        image[at + 1] = n as u8;
    }
    // object record: attributes, parent, sibling, child, property table
    image[0x80] = 0x12;
    image[0x81] = 0x34;
    image[0x82] = 0x56;
    image[0x83] = 0x78;
    image[0x84] = 1;
    image[0x85] = 2;
    image[0x86] = 3;
    image[0x87] = 0x00;
    image[0x88] = 0x90;
    // property table: name of one word ('abc'), then properties 2 and 1
    image[0x90] = 1;
    image[0x91] = 0x98;
    image[0x92] = 0xE8;
    // property 2, one data byte: size byte 32 * (1 - 1) + 2
    image[0x93] = 2;
    image[0x94] = 0xAB;
    // property 1, two data bytes: size byte 32 * (2 - 1) + 1
    image[0x95] = 33;
    image[0x96] = 0xCD;
    image[0x97] = 0xEF;
    // terminator
    image[0x98] = 0;
    image
}

fn table_header() -> ZMachineHeader {
    ZMachineHeader {
        version: ZMachineVersion::V3,
        base_high_memory: ZMemoryAddress::Byte(0x100),
        initial_pc: ZMemoryAddress::Byte(0x100),
        flags1_old: None,
        flags1: None,
        flags2: rustifzm::zmachine::header::ZMachineHeaderFlags2 { bits: 0 },
        location_dictionary: ZMemoryAddress::Byte(0),
        location_object_table: ZMemoryAddress::Byte(0x40),
        location_global_variables_table: ZMemoryAddress::Byte(0),
        base_static_memory: ZMemoryAddress::Byte(0x100),
        location_abbreviations_table: Some(ZMemoryAddress::Byte(0)),
    }
}

#[test]
fn test_objects_table_reads_the_defaults() {
    let memory = ZMemory::from_story_bytes(object_image());
    let table = ZObjectsTable::from_memory_and_header(&memory, &table_header()).unwrap();
    assert_eq!(table.address, ZMemoryAddress::Byte(0x40));
    assert_eq!(table.property_defaults.len(), 31);
    assert_eq!(table.property_defaults[0], 0x1101);
    assert_eq!(table.property_defaults[30], 0x111F);
}

#[test]
fn test_objects_table_out_of_bounds() {
    let memory = ZMemory::from_story_bytes(object_image()[..0x50].to_vec());
    assert_eq!(
        ZObjectsTable::from_memory_and_header(&memory, &table_header()).unwrap_err(),
        ZmError::MemoryInvalidAccess(0x50)
    );
}

#[test]
fn test_object_record_decodes_links_name_and_properties() {
    let memory = ZMemory::from_story_bytes(object_image());
    let object = ZObject::from_memory(
        &memory,
        7,
        ZMemoryAddress::Byte(0x80),
        ZMachineVersion::V3,
    )
    .unwrap();
    assert_eq!(object.attribute_flags, 0x12345678);
    assert_eq!(object.index, 7);
    assert_eq!(object.parent_index, 1);
    assert_eq!(object.sibling_index, 2);
    assert_eq!(object.child_index, 3);
    assert_eq!(object.text_length, Some(1));
    let name = object.text.as_ref().unwrap();
    assert_eq!(name.content, vec![6, 7, 8]);
    assert_eq!(
        name.decode(ZMachineVersion::V3, &memory, None).unwrap(),
        "abc"
    );
    assert_eq!(object.properties.len(), 2);
    assert_eq!(object.properties[0].index, 2);
    assert_eq!(object.properties[0].length, 1);
    assert_eq!(object.properties[0].data, vec![0xAB]);
    assert_eq!(object.properties[1].index, 1);
    assert_eq!(object.properties[1].length, 2);
    assert_eq!(object.properties[1].data, vec![0xCD, 0xEF]);
}

#[test]
fn test_object_record_versions_4_and_later_are_reserved() {
    let memory = ZMemory::from_story_bytes(object_image());
    assert!(matches!(
        ZObject::from_memory(&memory, 1, ZMemoryAddress::Byte(0x80), ZMachineVersion::V4),
        Err(ZmError::MachineUnsupportedVersion(ZMachineVersion::V4))
    ));
}

#[test]
fn test_object_record_malformed_size_byte() {
    let mut image = object_image();
    // a nonzero multiple of 32 terminates nothing and names no property
    image[0x93] = 64;
    let memory = ZMemory::from_story_bytes(image);
    assert_eq!(
        ZObject::from_memory(&memory, 1, ZMemoryAddress::Byte(0x80), ZMachineVersion::V3)
            .unwrap_err(),
        ZmError::ObjectInvalidPropertySize(64)
    );
}

#[test]
fn test_get_property_prefers_the_objects_own_value() {
    let memory = ZMemory::from_story_bytes(object_image());
    let table = ZObjectsTable::from_memory_and_header(&memory, &table_header()).unwrap();
    let object = ZObject::from_memory(
        &memory,
        7,
        ZMemoryAddress::Byte(0x80),
        ZMachineVersion::V3,
    )
    .unwrap();
    let own = object.get_property(&table, 2).unwrap();
    assert_eq!(own.index, 2);
    assert_eq!(own.data, vec![0xAB]);
    let own = object.get_property(&table, 1).unwrap();
    assert_eq!(own.data, vec![0xCD, 0xEF]);
}

#[test]
fn test_get_property_falls_back_to_the_defaults() {
    let memory = ZMemory::from_story_bytes(object_image());
    let table = ZObjectsTable::from_memory_and_header(&memory, &table_header()).unwrap();
    let object = ZObject::from_memory(
        &memory,
        7,
        ZMemoryAddress::Byte(0x80),
        ZMachineVersion::V3,
    )
    .unwrap();
    // the object has no property 5: the fifth defaults entry answers
    let default = object.get_property(&table, 5).unwrap();
    assert_eq!(default.index, 5);
    assert_eq!(default.length, 2);
    assert_eq!(default.data, vec![0x11, 0x05]);
    assert_eq!(default.address, 0x40 + 2 * 4);
}

#[test]
fn test_get_property_zero_or_out_of_range_faults() {
    let memory = ZMemory::from_story_bytes(object_image());
    let table = ZObjectsTable::from_memory_and_header(&memory, &table_header()).unwrap();
    let object = ZObject::from_memory(
        &memory,
        7,
        ZMemoryAddress::Byte(0x80),
        ZMachineVersion::V3,
    )
    .unwrap();
    assert_eq!(
        object.get_property(&table, 0).unwrap_err(),
        ZmError::ObjectInvalidPropertyNumber(0)
    );
    assert_eq!(
        object.get_property(&table, 32).unwrap_err(),
        ZmError::ObjectInvalidPropertyNumber(32)
    );
}

#[test]
fn test_single_property_read() {
    let memory = ZMemory::from_story_bytes(object_image());
    let prop =
        ZObjectProperty::from_memory(2, ZMemoryAddress::Byte(0x93), &memory, ZMachineVersion::V3)
            .unwrap();
    assert_eq!(prop.index, 2);
    assert_eq!(prop.length, 1);
    assert_eq!(prop.data, vec![0xAB]);
    // a size byte encoding another number is malformed for this request
    assert_eq!(
        ZObjectProperty::from_memory(3, ZMemoryAddress::Byte(0x93), &memory, ZMachineVersion::V3)
            .unwrap_err(),
        ZmError::ObjectInvalidPropertySize(2)
    );
    assert!(matches!(
        ZObjectProperty::from_memory(2, ZMemoryAddress::Byte(0x93), &memory, ZMachineVersion::V5),
        Err(ZmError::MachineUnsupportedVersion(ZMachineVersion::V5))
    ));
}
