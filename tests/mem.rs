use riscv_emu::error::Error;
use riscv_emu::mem::{
    memr, memr16, memr32, memr8, memw, read_u16, read_u32, read_u64, read_u8, write_u16, write_u32,
    write_u64, write_u8,
};

#[test]
fn libmem_test_memw() {
    let mut memory = [0u8; 1024];
    let data = "hello world!";
    memw(data.as_bytes(), &mut memory, 0x0).unwrap();
    assert_eq!(data.as_bytes(), &memory[0..data.len()])
}

#[test]
fn test_memr() {
    let mut memory = [0u8; 1024];
    let data = "hello_world!";
    memw(data.as_bytes(), &mut memory, 0x0).unwrap();
    let read = memr(&memory, 0x0, data.len()).unwrap();
    assert_eq!(data.as_bytes(), read);
}

#[test]
fn mem_test_memw() {
    let mut memory = [0u8; 1024];
    let data = "hello world!";
    memw(data.as_bytes(), &mut memory, 0x0).unwrap();
    assert_eq!(data.as_bytes(), &memory[0..data.len()])
}

#[test]
fn test_memr32() {
    let mut memory = [0u8; 1024];
    let data = "hello_world!";
    memw(data.as_bytes(), &mut memory, 0x0).unwrap();
    let read = memr32(&memory, 0x0).unwrap();
    assert_eq!(&read, "hell".as_bytes());
}

#[test]
fn test_memr16() {
    let mut memory = [0u8; 1024];
    let data = "hello_world!";
    memw(data.as_bytes(), &mut memory, 0x0).unwrap();
    let read = memr16(&memory, 0x0).unwrap();
    assert_eq!(&read, "he".as_bytes());
}

#[test]
fn test_memr8() {
    let mut memory = [0u8; 1024];
    let data = "hello_world!";
    memw(data.as_bytes(), &mut memory, 0x0).unwrap();
    let read = memr8(&memory, 0x0).unwrap();
    assert_eq!(read, 'h' as u8);
}

#[test]
fn memw_out_of_bounds_writes_nothing() {
    let mut memory = [7u8; 8];
    assert_eq!(memw(&[1, 2, 3], &mut memory, 6), Err(Error::MemoryOutOfBounds));
    assert_eq!(memory, [7u8; 8]);
    assert_eq!(memw(&[1, 2, 3], &mut memory, usize::MAX), Err(Error::MemoryOutOfBounds));
    assert_eq!(memw(&[1, 2, 3], &mut memory, 5), Ok(()));
    assert_eq!(memory, [7, 7, 7, 7, 7, 1, 2, 3]);
}

#[test]
fn reads_at_the_edge() {
    let memory = [1u8, 2, 3, 4, 5, 6, 7, 8];
    assert_eq!(memr(&memory, 6, 3), Err(Error::MemoryOutOfBounds));
    assert_eq!(memr32(&memory, 5), Err(Error::MemoryOutOfBounds));
    assert_eq!(memr32(&memory, 4), Ok([5, 6, 7, 8]));
    assert_eq!(memr16(&memory, 7), Err(Error::MemoryOutOfBounds));
    assert_eq!(memr16(&memory, 6), Ok([7, 8]));
    assert_eq!(memr8(&memory, 8), Err(Error::MemoryOutOfBounds));
    assert_eq!(memr8(&memory, 7), Ok(8));
}

#[test]
fn typed_little_endian() {
    let mut memory = [0u8; 16];
    write_u64(&mut memory, 8, 0x0102_0304_0506_0708).unwrap();
    assert_eq!(memory[8..], [8, 7, 6, 5, 4, 3, 2, 1]);
    assert_eq!(read_u64(&memory, 8), Ok(0x0102_0304_0506_0708));
    write_u32(&mut memory, 0, 0xdead_beef).unwrap();
    assert_eq!(memory[0..4], [0xef, 0xbe, 0xad, 0xde]);
    assert_eq!(read_u32(&memory, 0), Ok(0xdead_beef));
    assert_eq!(read_u16(&memory, 1), Ok(0xadbe));
    assert_eq!(read_u8(&memory, 3), Ok(0xde));
    write_u16(&mut memory, 4, 0xabcd).unwrap();
    assert_eq!(read_u16(&memory, 4), Ok(0xabcd));
    write_u8(&mut memory, 6, 0x5a).unwrap();
    assert_eq!(read_u8(&memory, 6), Ok(0x5a));
    assert_eq!(read_u64(&memory, 9), Err(Error::MemoryOutOfBounds));
    assert_eq!(write_u32(&mut memory, 13, 1), Err(Error::MemoryOutOfBounds));
    assert_eq!(read_u8(&memory, 16), Err(Error::MemoryOutOfBounds));
}
