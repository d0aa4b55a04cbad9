use rustifzm::zmemory::{ZMemory, ZMemoryAddress};
use rustifzm::ZmError;

fn init_memory() -> ZMemory {
    ZMemory { buffer: vec![0x01, 0x02, 0x03, 0x04, 0x05, 0x06] }
}

#[test]
fn test_read_byte() {
    let memory = init_memory();
    assert_eq!(memory.read_byte(ZMemoryAddress::Byte(0x01)).unwrap(), 0x02);
    assert_eq!(memory.read_byte(ZMemoryAddress::Byte(0x05)).unwrap(), 0x06);
    assert!(memory.read_byte(ZMemoryAddress::Byte(0x06)).is_err());
}

#[test]
fn test_read_word() {
    let memory = init_memory();
    assert_eq!(memory.read_word(ZMemoryAddress::Word(0x01)).unwrap(), 0x0203);
    assert_eq!(memory.read_word(ZMemoryAddress::Word(0x04)).unwrap(), 0x0506);
    assert!(memory.read_word(ZMemoryAddress::Word(0x05)).is_err());
}

#[test]
fn test_word_write_is_big_endian() {
    // writing 0x0203 at word address a puts 0x02 at a and 0x03 at a + 1
    let mut memory = ZMemory::from_story_bytes(vec![0; 8]);
    memory.write_word(ZMemoryAddress::Word(2), 0x0203).unwrap();
    assert_eq!(memory.read_byte(ZMemoryAddress::Byte(2)).unwrap(), 0x02);
    assert_eq!(memory.read_byte(ZMemoryAddress::Byte(3)).unwrap(), 0x03);
    assert_eq!(memory.read_word(ZMemoryAddress::Word(2)).unwrap(), 0x0203);
}

#[test]
fn test_read_past_end_fails_last_byte_succeeds() {
    let memory = ZMemory::from_story_bytes(vec![7; 10]);
    assert_eq!(memory.read_byte(ZMemoryAddress::Byte(9)).unwrap(), 7);
    assert_eq!(
        memory.read_byte(ZMemoryAddress::Byte(10)),
        Err(ZmError::MemoryInvalidAccess(10))
    );
    assert_eq!(
        memory.read_word(ZMemoryAddress::Word(9)),
        Err(ZmError::MemoryInvalidAccess(10))
    );
}

#[test]
fn test_wrong_address_kind_is_a_fault() {
    let mut memory = init_memory();
    assert_eq!(
        memory.read_byte(ZMemoryAddress::Word(0)),
        Err(ZmError::MemoryInvalidAddress(ZMemoryAddress::Word(0)))
    );
    assert_eq!(
        memory.read_word(ZMemoryAddress::Byte(0)),
        Err(ZmError::MemoryInvalidAddress(ZMemoryAddress::Byte(0)))
    );
    assert_eq!(
        memory.write_byte(ZMemoryAddress::Packed(0), 1),
        Err(ZmError::MemoryInvalidAddress(ZMemoryAddress::Packed(0)))
    );
    assert_eq!(
        memory.write_word(ZMemoryAddress::RelativeWord(0), 1),
        Err(ZmError::MemoryInvalidAddress(ZMemoryAddress::RelativeWord(0)))
    );
}

#[test]
fn test_write_byte_and_bounds() {
    let mut memory = ZMemory::from_story_bytes(vec![0; 4]);
    memory.write_byte(ZMemoryAddress::Byte(3), 0xAA).unwrap();
    assert_eq!(memory.read_byte(ZMemoryAddress::Byte(3)).unwrap(), 0xAA);
    assert_eq!(
        memory.write_byte(ZMemoryAddress::Byte(4), 0xAA),
        Err(ZmError::MemoryInvalidAccess(4))
    );
    assert_eq!(
        memory.write_word(ZMemoryAddress::Word(3), 0x0102),
        Err(ZmError::MemoryInvalidAccess(4))
    );
    // the first byte of the failed word write has already been stored
    assert_eq!(memory.read_byte(ZMemoryAddress::Byte(3)).unwrap(), 0x01);
}

#[test]
fn test_address_offsets() {
    let byte = ZMemoryAddress::Byte(0x10);
    assert_eq!(byte.as_byte().unwrap(), 0x10);
    assert_eq!(byte.offset_byte(0x05).unwrap(), ZMemoryAddress::Byte(0x15));
    assert_eq!(byte.offset_word(0x02).unwrap(), ZMemoryAddress::Word(0x12));
    // offsets wrap around the 64 KiB address space
    assert_eq!(
        ZMemoryAddress::Byte(0xFFFF).offset_byte(2).unwrap(),
        ZMemoryAddress::Byte(1)
    );
    let word = ZMemoryAddress::Word(0x20);
    assert_eq!(word.offset_word(4).unwrap(), ZMemoryAddress::Word(0x24));
    assert!(word.as_byte().is_err());
    assert!(word.offset_byte(1).is_err());
    assert!(ZMemoryAddress::Packed(1).offset_word(1).is_err());
}
