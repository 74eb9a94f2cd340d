use emu6::mem64::Config;
use emu6::mem64::Endian;
use emu6::mem64::MemError;
use emu6::mem64::Physical;
use emu6::mem64::Protect;

fn rwx() -> Protect {
    Protect { read: true, write: true, execute: true }
}

fn ro() -> Protect {
    Protect { read: true, write: false, execute: false }
}

fn little_rwx(lo: u64, hi: u64) -> Physical {
    let mut mem = Physical::new();
    mem.push_zeroed(Config { lo, hi, protect: rwx(), endian: Endian::Little });
    mem
}

#[test]
fn zeroed_section_reads_zero() {
    let mem = little_rwx(0x1000, 0x2000);
    assert_eq!(mem.read_u8(0x1000), Ok(0));
    assert_eq!(mem.read_u64(0x1ff8), Ok(0));
}

#[test]
fn write_then_read_round_trip_u32() {
    let mut mem = little_rwx(0x1000, 0x2000);
    assert_eq!(mem.write_u32(0x1010, 0xDEAD_BEEF), Ok(()));
    assert_eq!(mem.read_u32(0x1010), Ok(0xDEAD_BEEF));
}

#[test]
fn little_endian_byte_order() {
    let mut mem = little_rwx(0x1000, 0x2000);
    mem.write_u32(0x1000, 0x1122_3344).unwrap();
    assert_eq!(mem.read_u8(0x1000), Ok(0x44));
    assert_eq!(mem.read_u8(0x1001), Ok(0x33));
    assert_eq!(mem.read_u8(0x1002), Ok(0x22));
    assert_eq!(mem.read_u8(0x1003), Ok(0x11));
    assert_eq!(mem.read_u16(0x1000), Ok(0x3344));
}

#[test]
fn big_endian_byte_order() {
    let mut mem = Physical::new();
    mem.push_zeroed(Config { lo: 0, hi: 0x100, protect: rwx(), endian: Endian::Big });
    mem.write_u32(0, 0x1122_3344).unwrap();
    assert_eq!(mem.read_u8(0), Ok(0x11));
    assert_eq!(mem.read_u8(1), Ok(0x22));
    assert_eq!(mem.read_u8(2), Ok(0x33));
    assert_eq!(mem.read_u8(3), Ok(0x44));
    assert_eq!(mem.read_u16(0), Ok(0x1122));
    assert_eq!(mem.read_u32(0), Ok(0x1122_3344));
}

#[test]
fn signed_reads_sign_extend() {
    let mut mem = little_rwx(0, 0x100);
    mem.write_u8(0x10, 0x80).unwrap();
    assert_eq!(mem.read_i8(0x10), Ok(-128));
    mem.write_u16(0x20, 0xFFFE).unwrap();
    assert_eq!(mem.read_i16(0x20), Ok(-2));
    mem.write_u32(0x30, 0xFFFF_FFFF).unwrap();
    assert_eq!(mem.read_i32(0x30), Ok(-1));
    mem.write_u64(0x40, 0xFFFF_FFFF_FFFF_FFFB).unwrap();
    assert_eq!(mem.read_i64(0x40), Ok(-5));
}

#[test]
fn unmapped_address_is_no_memory() {
    let mem = little_rwx(0x1000, 0x2000);
    assert_eq!(mem.read_u8(0x0FFF), Err(MemError::NoMemory { addr: 0x0FFF }));
    assert_eq!(mem.read_u8(0x2000), Err(MemError::NoMemory { addr: 0x2000 }));
}

#[test]
fn window_past_section_end_is_no_memory_at_first_byte_past() {
    let mem = little_rwx(0x1000, 0x2000);
    assert_eq!(mem.read_u32(0x1FFE), Err(MemError::NoMemory { addr: 0x2000 }));
    assert_eq!(mem.read_u64(0x1FFF), Err(MemError::NoMemory { addr: 0x2000 }));
    assert_eq!(mem.read_u32(0x1FFC), Ok(0));
}

#[test]
fn read_only_section_cannot_be_written() {
    let mut mem = Physical::new();
    mem.push_zeroed(Config { lo: 0x4000, hi: 0x5000, protect: ro(), endian: Endian::Little });
    assert_eq!(mem.write_u32(0x4000, 7), Err(MemError::CannotWrite { addr: 0x4000 }));
    assert_eq!(mem.read_u32(0x4000), Ok(0));
}

#[test]
fn non_executable_section_cannot_be_fetched() {
    let mem = little_rwx(0x1000, 0x2000);
    let mut ro_mem = Physical::new();
    ro_mem.push_zeroed(
        Config { lo: 0x1000, hi: 0x2000, protect: ro(), endian: Endian::Little },
    );
    assert_eq!(mem.fetch_ins_u16(0x1000), Ok(0));
    assert_eq!(
        ro_mem.fetch_ins_u16(0x1000),
        Err(MemError::CannotExecute { addr: 0x1000 })
    );
}

#[test]
fn write_only_section_cannot_be_read() {
    let mut mem = Physical::new();
    mem.push_zeroed(
        Config {
            lo: 0,
            hi: 0x100,
            protect: Protect { read: false, write: true, execute: false },
            endian: Endian::Little,
        },
    );
    assert_eq!(mem.read_u8(0), Err(MemError::CannotRead { addr: 0 }));
    assert_eq!(mem.write_u8(0, 5), Ok(()));
}

#[test]
fn consecutive_reads_agree() {
    let mut mem = little_rwx(0, 0x100);
    mem.write_u32(0x40, 0xCAFE_F00D).unwrap();
    let first = mem.read_u32(0x40);
    let second = mem.read_u32(0x40);
    assert_eq!(first, second);
    assert_eq!(first, Ok(0xCAFE_F00D));
}

#[test]
fn pushed_slice_keeps_bytes_and_zero_fills() {
    let image: Vec<u8> = vec![1, 2, 3];
    let mut mem = Physical::new();
    mem.push_slice(
        Config { lo: 0x100, hi: 0x110, protect: ro(), endian: Endian::Little },
        &image,
    );
    assert_eq!(mem.read_u8(0x100), Ok(1));
    assert_eq!(mem.read_u8(0x101), Ok(2));
    assert_eq!(mem.read_u8(0x102), Ok(3));
    assert_eq!(mem.read_u8(0x103), Ok(0));
    assert_eq!(mem.read_u8(0x10F), Ok(0));
}

#[test]
fn pushed_owned_keeps_bytes_and_zero_fills() {
    let mut mem = Physical::new();
    mem.push_owned(
        Config { lo: 0, hi: 8, protect: rwx(), endian: Endian::Little },
        vec![0xAA, 0xBB],
    );
    assert_eq!(mem.read_u8(0), Ok(0xAA));
    assert_eq!(mem.read_u8(1), Ok(0xBB));
    assert_eq!(mem.read_u8(2), Ok(0));
}

#[test]
fn pushed_slice_mut_copies_bytes() {
    let mut image: Vec<u8> = vec![9, 8, 7, 6];
    let mut mem = Physical::new();
    mem.push_slice_mut(
        Config { lo: 0x200, hi: 0x204, protect: rwx(), endian: Endian::Little },
        &mut image,
    );
    assert_eq!(mem.read_u8(0x200), Ok(9));
    assert_eq!(mem.write_u8(0x200, 1), Ok(()));
    assert_eq!(mem.read_u8(0x200), Ok(1));
}

#[test]
fn two_disjoint_sections_both_serve() {
    let mut mem = Physical::new();
    mem.push_zeroed(Config { lo: 0, hi: 0x100, protect: rwx(), endian: Endian::Little });
    mem.push_zeroed(
        Config { lo: 0x1000, hi: 0x1100, protect: ro(), endian: Endian::Little },
    );
    assert_eq!(mem.write_u8(0x80, 3), Ok(()));
    assert_eq!(mem.read_u8(0x80), Ok(3));
    assert_eq!(mem.read_u8(0x1080), Ok(0));
    assert_eq!(mem.read_u8(0x500), Err(MemError::NoMemory { addr: 0x500 }));
}
