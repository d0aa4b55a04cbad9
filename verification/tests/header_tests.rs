use rustifzm::zmachine::header::{
    ZMachineHeader, ZMachineHeaderFlags1Features, ZMachineHeaderFlags2, ZMachineVersion,
    FEATURE_AVAILABLE_COLORS, FEATURE_AVAILABLE_PICTURE, FEATURE_AVAILABLE_SFX,
    FLAGS1_STATUS_LINE_TYPE, FLAGS1_STORY_SPLIT_DISCS,
};
use rustifzm::zmemory::{ZMemory, ZMemoryAddress};
use rustifzm::ZmError;

fn header_image(version: u8) -> Vec<u8> {
    let mut image = vec![0u8; 64];
    image[0] = version;
    // base of high memory at 0x04, initial program counter at 0x06
    image[0x04] = 0x02;
    image[0x05] = 0x00;
    image[0x06] = 0x00;
    image[0x07] = 0x40;
    // dictionary, object table, globals, static base
    image[0x09] = 0x50;
    image[0x0B] = 0x60;
    image[0x0D] = 0x70;
    image[0x0F] = 0x40;
    // abbreviations table
    image[0x19] = 0x48;
    image
}

#[test]
fn test_decode_accepts_versions_1_to_8_and_rejects_the_rest() {
    for version in 1u8..=8 {
        let memory = ZMemory::from_story_bytes(header_image(version));
        let header = ZMachineHeader::from_memory(&memory).unwrap();
        assert_eq!(header.get_version().number(), version);
    }
    for bad in [0u8, 9, 10, 0x42, 0xFF] {
        let memory = ZMemory::from_story_bytes(header_image(bad));
        let result = ZMachineHeader::from_memory(&memory);
        assert!(matches!(result, Err(ZmError::MachineUnknownVersion(v)) if v == bad));
    }
}

#[test]
fn test_try_from_matches_version_bytes() {
    assert_eq!(ZMachineVersion::try_from(3).unwrap(), ZMachineVersion::V3);
    assert_eq!(ZMachineVersion::try_from(8).unwrap(), ZMachineVersion::V8);
    assert_eq!(
        ZMachineVersion::try_from(9),
        Err(ZmError::MachineUnknownVersion(9))
    );
    assert_eq!(
        ZMachineVersion::try_from(0),
        Err(ZmError::MachineUnknownVersion(0))
    );
}

#[test]
fn test_decode_reads_the_fixed_fields() {
    let memory = ZMemory::from_story_bytes(header_image(3));
    let header = ZMachineHeader::from_memory(&memory).unwrap();
    assert_eq!(header.get_initial_pc(), ZMemoryAddress::Byte(0x40));
    assert_eq!(header.base_high_memory, ZMemoryAddress::Byte(0x200));
    assert_eq!(header.location_dictionary, ZMemoryAddress::Byte(0x50));
    assert_eq!(header.get_location_object_table(), ZMemoryAddress::Byte(0x60));
    assert_eq!(
        header.location_global_variables_table,
        ZMemoryAddress::Byte(0x70)
    );
    assert_eq!(header.base_static_memory, ZMemoryAddress::Byte(0x40));
    assert_eq!(
        header.get_location_abbreviations_table(),
        Some(ZMemoryAddress::Byte(0x48))
    );
}

#[test]
fn test_decode_version_gates_initial_pc_and_abbreviations() {
    let memory = ZMemory::from_story_bytes(header_image(1));
    let header = ZMachineHeader::from_memory(&memory).unwrap();
    assert_eq!(header.get_initial_pc(), ZMemoryAddress::Byte(0x40));
    assert_eq!(header.get_location_abbreviations_table(), None);

    let memory = ZMemory::from_story_bytes(header_image(6));
    let header = ZMachineHeader::from_memory(&memory).unwrap();
    // from version 6 the initial program counter is a packed routine address
    assert_eq!(header.get_initial_pc(), ZMemoryAddress::Packed(0x40));
}

#[test]
fn test_decode_short_image_is_out_of_bounds() {
    let memory = ZMemory::from_story_bytes(vec![]);
    assert_eq!(
        ZMachineHeader::from_memory(&memory).unwrap_err(),
        ZmError::MemoryInvalidAccess(0)
    );
    let memory = ZMemory::from_story_bytes(vec![3, 0, 0]);
    assert_eq!(
        ZMachineHeader::from_memory(&memory).unwrap_err(),
        ZmError::MemoryInvalidAccess(6)
    );
    // version 1 needs no abbreviations word, version 2 does
    let memory = ZMemory::from_story_bytes(header_image(1)[..0x10].to_vec());
    assert!(ZMachineHeader::from_memory(&memory).is_ok());
    let memory = ZMemory::from_story_bytes(header_image(2)[..0x10].to_vec());
    assert_eq!(
        ZMachineHeader::from_memory(&memory).unwrap_err(),
        ZmError::MemoryInvalidAccess(0x18)
    );
}

#[test]
fn test_allowed_flags_by_version_and_features() {
    // transcripting and the color request are always legal
    assert_eq!(
        ZMachineHeaderFlags2::allowed_flags(ZMachineVersion::V1, &None).bits(),
        0x0041
    );
    // fixed-pitch forcing from version 3
    assert_eq!(
        ZMachineHeaderFlags2::allowed_flags(ZMachineVersion::V3, &None).bits(),
        0x0043
    );
    // undo and mouse from version 5; pictures and sound follow the features
    let features = Some(ZMachineHeaderFlags1Features {
        bits: FEATURE_AVAILABLE_PICTURE | FEATURE_AVAILABLE_SFX,
    });
    assert_eq!(
        ZMachineHeaderFlags2::allowed_flags(ZMachineVersion::V5, &features).bits(),
        0x0043 | 0x0010 | 0x0020 | 0x0008 | 0x0080
    );
    // menus from version 6
    let no_features = Some(ZMachineHeaderFlags1Features { bits: 0 });
    assert_eq!(
        ZMachineHeaderFlags2::allowed_flags(ZMachineVersion::V6, &no_features).bits(),
        0x0043 | 0x0010 | 0x0020 | 0x0100
    );
    assert_eq!(
        ZMachineHeaderFlags1Features::default().bits,
        FEATURE_AVAILABLE_COLORS
    );
}

#[test]
fn test_reset_masks_flags2_to_the_legal_bits() {
    // a version 3 image asking for everything, the menus request included
    let mut image = header_image(3);
    image[0x10] = 0xFF;
    image[0x11] = 0xFF;
    let mut memory = ZMemory::from_story_bytes(image);
    let mut header = ZMachineHeader::from_memory(&memory).unwrap();
    header.reset(&mut memory).unwrap();
    // only transcripting, fixed-pitch forcing and the color request survive
    assert_eq!(memory.read_word(ZMemoryAddress::Word(0x10)).unwrap(), 0x0043);
    assert_eq!(header.flags2.bits(), 0x0043);
    assert!(!header.flags2.contains(0x0100));
}

#[test]
fn test_reset_stamps_the_standard_revision() {
    let mut memory = ZMemory::from_story_bytes(header_image(3));
    let mut header = ZMachineHeader::from_memory(&memory).unwrap();
    header.reset(&mut memory).unwrap();
    assert_eq!(memory.read_byte(ZMemoryAddress::Byte(0x32)).unwrap(), 1);
    assert_eq!(memory.read_byte(ZMemoryAddress::Byte(0x33)).unwrap(), 1);
}

#[test]
fn test_reset_keeps_features_for_version_4_and_up() {
    let mut image = header_image(5);
    image[0x01] = 0xFF;
    let mut memory = ZMemory::from_story_bytes(image);
    let mut header = ZMachineHeader::from_memory(&memory).unwrap();
    header.reset(&mut memory).unwrap();
    // the feature byte is masked to the defined feature bits
    assert_eq!(memory.read_byte(ZMemoryAddress::Byte(0x01)).unwrap(), 0xBF);
    assert_eq!(header.flags1.unwrap().bits, 0xBF);
    assert_eq!(header.flags1_old, None);
}

#[test]
fn test_reset_keeps_status_line_bits_before_version_4() {
    let mut image = header_image(3);
    image[0x01] = 0xFF;
    let mut memory = ZMemory::from_story_bytes(image);
    let mut header = ZMachineHeader::from_memory(&memory).unwrap();
    header.reset(&mut memory).unwrap();
    // only the status-line-type and split-discs bits survive
    let kept = FLAGS1_STATUS_LINE_TYPE | FLAGS1_STORY_SPLIT_DISCS;
    assert_eq!(memory.read_byte(ZMemoryAddress::Byte(0x01)).unwrap(), kept);
    assert_eq!(header.flags1_old.unwrap().bits, kept);
    assert_eq!(header.flags1, None);
}

#[test]
fn test_reset_on_a_short_image_changes_nothing() {
    let mut memory = ZMemory::from_story_bytes(header_image(3)[..0x20].to_vec());
    let mut header = ZMachineHeader::from_memory(&memory).unwrap();
    assert_eq!(
        header.reset(&mut memory),
        Err(ZmError::MemoryInvalidAccess(0x32))
    );
    assert_eq!(memory.read_byte(ZMemoryAddress::Byte(0x01)).unwrap(), 0x00);
}
