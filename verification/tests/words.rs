use emu6::Xlen;
use emu6::imm::Imm;
use emu6::imm::Uimm;
use emu6::size::Isize;
use emu6::size::Usize;

#[test]
fn logical_shifts_by_the_width_or_more_yield_zero() {
    assert_eq!(Usize::U32(0xFFFF_FFFF).shl(32), Usize::U32(0));
    assert_eq!(Usize::U32(0xFFFF_FFFF).shr(40), Usize::U32(0));
    assert_eq!(Usize::U64(u64::MAX).shl(64), Usize::U64(0));
    assert_eq!(Usize::U64(u64::MAX).shr(64), Usize::U64(0));
    assert_eq!(Usize::U32(1).shl(31), Usize::U32(0x8000_0000));
}

#[test]
fn arithmetic_shift_by_the_width_or_more_fills_with_ones() {
    assert_eq!(Isize::I32(-5).shr_arith(32), Isize::I32(-1));
    assert_eq!(Isize::I64(-5).shr_arith(100), Isize::I64(-1));
    assert_eq!(Isize::I32(-8).shr_arith(1), Isize::I32(-4));
}

#[test]
fn wrapping_arithmetic_wraps_at_the_width() {
    assert_eq!(
        Usize::U32(u32::MAX).wrapping_add(Usize::U32(1)),
        Usize::U32(0)
    );
    assert_eq!(
        Usize::U64(0).wrapping_sub(Usize::U64(1)),
        Usize::U64(u64::MAX)
    );
    assert_eq!(
        Usize::U32(4).wrapping_add_signed(Isize::I32(-8)),
        Usize::U32(0xFFFF_FFFC)
    );
}

#[test]
fn signed_and_unsigned_views_share_bits() {
    assert_eq!(Usize::U32(0xFFFF_FFFF).as_signed(), Isize::I32(-1));
    assert_eq!(Isize::I64(-2).cast_to_usize(), Usize::U64(0xFFFF_FFFF_FFFF_FFFE));
}

#[test]
fn immediate_sign_extension_follows_the_top_valid_bit() {
    // Twelve valid bits: 0xFFF reads as -1, 0x7FF as itself.
    assert_eq!(Imm::new(0xFFF, 12).sext(Xlen::X32), Isize::I32(-1));
    assert_eq!(Imm::new(0xFFF, 12).sext(Xlen::X64), Isize::I64(-1));
    assert_eq!(Imm::new(0x7FF, 12).sext(Xlen::X32), Isize::I32(0x7FF));
    // Bits above the valid count are ignored.
    assert_eq!(Imm::new(0xF005, 12).sext(Xlen::X32), Isize::I32(5));
}

#[test]
fn immediate_zero_extension_masks_and_widens() {
    assert_eq!(Uimm::new(0xFFF, 12).zext(Xlen::X32), Usize::U32(0xFFF));
    assert_eq!(Uimm::new(0xFFF, 12).zext(Xlen::X64), Usize::U64(0xFFF));
    assert_eq!(Uimm::new(0xF005, 12).zext(Xlen::X64), Usize::U64(5));
    // The 32-bit U-immediate keeps its full payload.
    assert_eq!(
        Uimm::new(0x8000_0000, 32).zext(Xlen::X64),
        Usize::U64(0x8000_0000)
    );
}

#[test]
fn immediate_low_bits_feed_shift_amounts() {
    assert_eq!(Imm::new(0x21, 12).low32(), 0x21);
    assert_eq!(Imm::new(0xF001, 12).low32(), 1);
}

#[test]
fn word_comparisons_respect_signedness() {
    assert!(Usize::U32(1).lt(Usize::U32(2)));
    assert!(!Usize::U32(0xFFFF_FFFF).lt(Usize::U32(1)));
    assert!(Isize::I32(-1).lt(Isize::I32(1)));
    assert!(Isize::I64(-1).lt(Isize::I64(0)));
    assert!(Usize::U64(7).ge(Usize::U64(7)));
}

#[test]
fn low_u32_takes_the_low_half() {
    assert_eq!(Usize::U64(0x1122_3344_5566_7788).low_u32(), 0x5566_7788);
    assert_eq!(Usize::U32(0xABCD_EF01).low_u32(), 0xABCD_EF01);
}
