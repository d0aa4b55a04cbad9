use rustifzm::zcpu::ZCpu;
use rustifzm::zmachine::header::ZMachineHeader;
use rustifzm::zmemory::ZMemory;
use rustifzm::{ZMachine, ZMachineVersion, ZmError};

/// A minimal synthetic version-3 story image: a 64-byte header whose initial
/// program counter points right past the header, where a single 0OP
/// "return true" opcode (0xB0) lies.
fn minimal_story(version: u8) -> Vec<u8> {
    let mut image = vec![0u8; 0x41];
    image[0] = version;
    // base of high memory and of static memory beyond the header
    image[0x04] = 0x00;
    image[0x05] = 0x41;
    image[0x0E] = 0x00;
    image[0x0F] = 0x40;
    // initial program counter
    image[0x06] = 0x00;
    image[0x07] = 0x40;
    // the one instruction
    image[0x40] = 0xB0;
    image
}

#[test]
fn test_load_and_step_a_minimal_story() {
    let machine = ZMachine::from_story_bytes(minimal_story(3));
    let mut machine = machine.unwrap();
    assert_eq!(machine.cpu.pc, 0x40);
    machine.step().unwrap();
    // the counter has moved past the one-byte instruction
    assert_eq!(machine.cpu.pc, 0x41);
}

#[test]
fn test_load_rejects_unknown_versions() {
    assert!(matches!(
        ZMachine::from_story_bytes(minimal_story(0)),
        Err(ZmError::MachineUnknownVersion(0))
    ));
    assert!(matches!(
        ZMachine::from_story_bytes(minimal_story(9)),
        Err(ZmError::MachineUnknownVersion(9))
    ));
}

#[test]
fn test_load_rejects_a_packed_initial_pc() {
    // from version 6 the initial program counter is a packed routine
    // address, a construct this processor does not support
    assert!(matches!(
        ZMachine::from_story_bytes(minimal_story(6)),
        Err(ZmError::MachineUnsupportedVersion(ZMachineVersion::V6))
    ));
}

#[test]
fn test_load_rejects_a_truncated_image() {
    assert!(matches!(
        ZMachine::from_story_bytes(vec![]),
        Err(ZmError::MemoryInvalidAccess(0))
    ));
    assert!(matches!(
        ZMachine::from_story_bytes(minimal_story(3)[..0x20].to_vec()),
        Err(ZmError::MemoryInvalidAccess(0x32))
    ));
}

#[test]
fn test_step_at_the_image_end_faults() {
    let mut machine = ZMachine::from_story_bytes(minimal_story(3)).unwrap();
    machine.step().unwrap();
    // the counter now sits past the last byte
    assert_eq!(
        machine.step(),
        Err(ZmError::MemoryInvalidAccess(0x41))
    );
}

#[test]
fn test_cpu_from_header_takes_byte_addresses_only() {
    let memory = ZMemory::from_story_bytes(minimal_story(3));
    let header = ZMachineHeader::from_memory(&memory).unwrap();
    let cpu = ZCpu::from_header(&header).unwrap();
    assert_eq!(cpu.pc, 0x40);
    assert_eq!(cpu.target, ZMachineVersion::V3);

    let memory = ZMemory::from_story_bytes(minimal_story(7));
    let header = ZMachineHeader::from_memory(&memory).unwrap();
    assert!(matches!(
        ZCpu::from_header(&header),
        Err(ZmError::MachineUnsupportedVersion(ZMachineVersion::V7))
    ));
}

#[test]
fn test_step_leaves_memory_unchanged() {
    let mut machine = ZMachine::from_story_bytes(minimal_story(3)).unwrap();
    let before = machine.memory.buffer.clone();
    machine.step().unwrap();
    assert_eq!(machine.memory.buffer, before);
}
