use std::ops::Range;

use rusty_chip::fault::Fault;
use rusty_chip::memory::Memory;

#[test]
fn memory_load_data_with_len_equal_range() {
    let data: Vec<u8> = vec![0xA, 0xB, 0xC, 0xD, 0xE];
    let range: Range<usize> = 0x0..0x5;
    let mut memory = Memory::new(0x10, 0x0);

    memory.load(&data, range).unwrap();
    assert_eq!(0xA, memory.read(0x0));
    assert_eq!(0xB, memory.read(0x1));
    assert_eq!(0xC, memory.read(0x2));
    assert_eq!(0xD, memory.read(0x3));
    assert_eq!(0xE, memory.read(0x4));
}

#[test]
fn memory_load_data_with_len_less_than_range() {
    let data: Vec<u8> = vec![0xA, 0xB, 0xC];
    let range: Range<usize> = 0x0..0x5;
    let mut memory = Memory::new(0x10, 0x0);

    memory.load(&data, range).unwrap();
    assert_eq!(0xA, memory.read(0x0));
    assert_eq!(0xB, memory.read(0x1));
    assert_eq!(0xC, memory.read(0x2));
}

#[test]
fn load_data_with_len_greater_than_range_is_refused() {
    let data: Vec<u8> = vec![0xA, 0xB, 0xC, 0xD, 0xE, 0xF];
    let range: Range<usize> = 0x0..0x5;
    let mut memory = Memory::new(0x10, 0x0);

    assert_eq!(Err(Fault::OversizedLoad), memory.load(&data, range));
    assert_eq!(Memory::new(0x10, 0x0), memory);
}

#[test]
fn load_into_the_middle_leaves_the_rest() {
    let data: Vec<u8> = vec![0x1, 0x2, 0x3];
    let mut memory = Memory::new(0x8, 0xFF);

    memory.load(&data, 0x2..0x6).unwrap();
    assert_eq!(vec![0xFF, 0xFF, 0x1, 0x2, 0x3, 0xFF, 0xFF, 0xFF], memory.read_range(0, 8));
}

#[test]
fn load_into_an_inverted_range_is_refused() {
    let data: Vec<u8> = vec![0x1];
    let mut memory = Memory::new(0x8, 0x0);

    assert_eq!(Err(Fault::OversizedLoad), memory.load(&data, 0x6..0x2));
    assert_eq!(Ok(()), memory.load(&[], 0x3..0x3));
    assert_eq!(vec![0x0; 8], memory.read_range(0, 8));
}

#[test]
fn new_fills_with_the_default() {
    let memory = Memory::new(0x10, 0x7u8);
    assert_eq!(0x10, memory.len());
    assert_eq!(vec![0x7u8; 0x10], memory.read_range(0, 0x10));
    assert_eq!(0, Memory::new(0, false).len());
}

#[test]
fn write_changes_one_cell() {
    let mut memory = Memory::new(0x4, 0x0u8);
    memory.write(0x2, 0xAB);
    assert_eq!(0xAB, memory.read(0x2));
    assert_eq!(vec![0x0, 0x0, 0xAB, 0x0], memory.read_range(0, 4));
    assert_eq!(vec![0xAB, 0x0], memory.read_range(2, 2));
    assert_eq!(Vec::<u8>::new(), memory.read_range(4, 0));
}
