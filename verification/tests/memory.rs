use mos6502::memory::Memory;

#[test]
fn test_read_u8() {
    let mut memory = Memory::default();
    memory.0[0xBEEF] = 0x42;

    assert_eq!(memory.read::<u8>(0xBEEF), 0x42);
}

#[test]
fn test_read_u16() {
    let mut memory = Memory::default();
    let addr = 0xBEEF;

    memory.0[addr] = 0x42;
    memory.0[addr + 1] = 0x43;

    assert_eq!(memory.read::<u16>(addr as u16), 0x4342);
}

#[test]
fn test_write_u8() {
    let mut memory = Memory::default();
    memory.write(0xBEEF, 0x42_u8);

    assert_eq!(memory.0[0xBEEF], 0x42);
}

#[test]
fn test_write_u16() {
    let mut memory = Memory::default();
    let addr = 0xBEEF;

    memory.write(addr, 0x4342_u16);

    assert_eq!(memory.0[addr as usize], 0x42);
    assert_eq!(memory.0[addr as usize + 1], 0x43);
}
