use vstd::prelude::*;

verus! {

use crate::Xlen;
use vstd::wrapping::u32_specs;
use vstd::wrapping::u64_specs;

/// An unsigned machine word, tagged with its width (32 or 64 bits).
///
/// All arithmetic wraps at the word's width.  Two words may be combined
/// only when their widths agree; the width-mixing preconditions below
/// rule the other case out.
#[derive(Clone, Copy, PartialEq, Eq, Structural, Debug)]
pub enum Usize {
    U32(u32),
    U64(u64),
}

/// A signed machine word, tagged with its width (32 or 64 bits).
#[derive(Clone, Copy, PartialEq, Eq, Structural, Debug)]
pub enum Isize {
    I32(i32),
    I64(i64),
}

/// The unsigned word of the machine's width holding `v`; exact for
/// `v` below the width's range.
pub open spec fn uword(xlen: Xlen, v: nat) -> Usize {
    match xlen {
        Xlen::X32 => Usize::U32(v as u32),
        Xlen::X64 => Usize::U64(v as u64),
        Xlen::X128 => Usize::U64(v as u64),
    }
}

/// The unsigned word of the machine's width whose two's-complement
/// reading is `v`; exact for `v` within the width's signed range.
pub open spec fn iword(xlen: Xlen, v: int) -> Usize {
    match xlen {
        Xlen::X32 => Usize::U32((v as i32) as u32),
        Xlen::X64 => Usize::U64((v as i64) as u64),
        Xlen::X128 => Usize::U64((v as i64) as u64),
    }
}

/// The signed word of the machine's width holding `v`; exact for `v`
/// within the width's signed range.
pub open spec fn iword_s(xlen: Xlen, v: int) -> Isize {
    match xlen {
        Xlen::X32 => Isize::I32(v as i32),
        Xlen::X64 => Isize::I64(v as i64),
        Xlen::X128 => Isize::I64(v as i64),
    }
}

impl Usize {
    /// The word's width in bits.
    pub open spec fn width(self) -> nat {
        match self {
            Usize::U32(_) => 32,
            Usize::U64(_) => 64,
        }
    }

    /// The word read as an unsigned number.
    pub open spec fn as_nat(self) -> nat {
        match self {
            Usize::U32(a) => a as nat,
            Usize::U64(a) => a as nat,
        }
    }

    /// The word read as a two's-complement signed number.
    pub open spec fn as_int(self) -> int {
        match self {
            Usize::U32(a) => a as i32 as int,
            Usize::U64(a) => a as i64 as int,
        }
    }

    /// Whether the word's width is the one `xlen` asks for.
    pub open spec fn matches_xlen(self, xlen: Xlen) -> bool {
        self.width() == xlen.spec_bits()
    }

    /// The low 32 bits of the word.
    pub open spec fn spec_low_u32(self) -> u32 {
        (self.as_nat() % 0x1_0000_0000) as u32
    }

    pub open spec fn spec_wrapping_add(self, rhs: Usize) -> Usize {
        match (self, rhs) {
            (Usize::U32(a), Usize::U32(b)) => Usize::U32(u32_specs::wrapping_add(a, b)),
            (Usize::U64(a), Usize::U64(b)) => Usize::U64(u64_specs::wrapping_add(a, b)),
            _ => self,
        }
    }

    pub open spec fn spec_wrapping_sub(self, rhs: Usize) -> Usize {
        match (self, rhs) {
            (Usize::U32(a), Usize::U32(b)) => Usize::U32(u32_specs::wrapping_sub(a, b)),
            (Usize::U64(a), Usize::U64(b)) => Usize::U64(u64_specs::wrapping_sub(a, b)),
            _ => self,
        }
    }

    pub open spec fn spec_wrapping_add_signed(self, rhs: Isize) -> Usize {
        match (self, rhs) {
            (Usize::U32(a), Isize::I32(b)) => Usize::U32(u32_specs::wrapping_add_signed(a, b)),
            (Usize::U64(a), Isize::I64(b)) => Usize::U64(u64_specs::wrapping_add_signed(a, b)),
            _ => self,
        }
    }

    /// The zero word of the given width.
    pub fn zero(xlen: Xlen) -> (r: Usize)
        requires
            xlen != Xlen::X128,
        ensures
            r.matches_xlen(xlen),
            r.as_nat() == 0,
    {
        match xlen {
            Xlen::X32 => Usize::U32(0),
            Xlen::X64 => Usize::U64(0),
            Xlen::X128 => Usize::U64(0),
        }
    }

    /// The low 32 bits of the word.
    pub fn low_u32(self) -> (r: u32)
        ensures
            r == self.as_nat() % 0x1_0000_0000,
    {
        match self {
            Usize::U32(a) => a,
            Usize::U64(a) => (a % 0x1_0000_0000) as u32,
        }
    }

    /// The word widened to a plain 64-bit address.
    pub fn to_mem_addr(self) -> (r: u64)
        ensures
            r == self.as_nat(),
    {
        match self {
            Usize::U32(a) => a as u64,
            Usize::U64(a) => a,
        }
    }

    /// The same bits read as a signed word.
    pub fn as_signed(self) -> (r: Isize)
        ensures
            r == self.spec_as_signed(),
    {
        match self {
            Usize::U32(a) => Isize::I32(a as i32),
            Usize::U64(a) => Isize::I64(a as i64),
        }
    }

    pub open spec fn spec_as_signed(self) -> Isize {
        match self {
            Usize::U32(a) => Isize::I32(a as i32),
            Usize::U64(a) => Isize::I64(a as i64),
        }
    }

    pub open spec fn spec_wrapping_add_u32(self, rhs: u32) -> Usize {
        match self {
            Usize::U32(a) => Usize::U32(u32_specs::wrapping_add(a, rhs)),
            Usize::U64(a) => Usize::U64(u64_specs::wrapping_add(a, rhs as u64)),
        }
    }

    /// Addition of a plain 32-bit amount, wrapping at the word's width.
    pub fn wrapping_add_u32(self, rhs: u32) -> (r: Usize)
        ensures
            r == self.spec_wrapping_add_u32(rhs),
            r.width() == self.width(),
    {
        match self {
            Usize::U32(a) => Usize::U32(a.wrapping_add(rhs)),
            Usize::U64(a) => Usize::U64(a.wrapping_add(rhs as u64)),
        }
    }

    /// Addition, wrapping at the word's width.
    pub fn wrapping_add(self, rhs: Usize) -> (r: Usize)
        requires
            self.width() == rhs.width(),
        ensures
            r == self.spec_wrapping_add(rhs),
            r.width() == self.width(),
    {
        match (self, rhs) {
            (Usize::U32(a), Usize::U32(b)) => Usize::U32(a.wrapping_add(b)),
            (Usize::U64(a), Usize::U64(b)) => Usize::U64(a.wrapping_add(b)),
            _ => self,
        }
    }

    /// Subtraction, wrapping at the word's width.
    pub fn wrapping_sub(self, rhs: Usize) -> (r: Usize)
        requires
            self.width() == rhs.width(),
        ensures
            r == self.spec_wrapping_sub(rhs),
            r.width() == self.width(),
    {
        match (self, rhs) {
            (Usize::U32(a), Usize::U32(b)) => Usize::U32(a.wrapping_sub(b)),
            (Usize::U64(a), Usize::U64(b)) => Usize::U64(a.wrapping_sub(b)),
            _ => self,
        }
    }

    /// Addition of a signed word of the same width, wrapping.
    pub fn wrapping_add_signed(self, rhs: Isize) -> (r: Usize)
        requires
            self.width() == rhs.width(),
        ensures
            r == self.spec_wrapping_add_signed(rhs),
            r.width() == self.width(),
    {
        match (self, rhs) {
            (Usize::U32(a), Isize::I32(b)) => Usize::U32(a.wrapping_add_signed(b)),
            (Usize::U64(a), Isize::I64(b)) => Usize::U64(a.wrapping_add_signed(b)),
            _ => self,
        }
    }

    /// Bitwise and.
    pub fn bit_and(self, rhs: Usize) -> (r: Usize)
        requires
            self.width() == rhs.width(),
        ensures
            r == self.spec_bit_and(rhs),
            r.width() == self.width(),
    {
        match (self, rhs) {
            (Usize::U32(a), Usize::U32(b)) => Usize::U32(a & b),
            (Usize::U64(a), Usize::U64(b)) => Usize::U64(a & b),
            _ => self,
        }
    }

    pub open spec fn spec_bit_and(self, rhs: Usize) -> Usize {
        match (self, rhs) {
            (Usize::U32(a), Usize::U32(b)) => Usize::U32(a & b),
            (Usize::U64(a), Usize::U64(b)) => Usize::U64(a & b),
            _ => self,
        }
    }

    /// Bitwise or.
    pub fn bit_or(self, rhs: Usize) -> (r: Usize)
        requires
            self.width() == rhs.width(),
        ensures
            r == self.spec_bit_or(rhs),
            r.width() == self.width(),
    {
        match (self, rhs) {
            (Usize::U32(a), Usize::U32(b)) => Usize::U32(a | b),
            (Usize::U64(a), Usize::U64(b)) => Usize::U64(a | b),
            _ => self,
        }
    }

    pub open spec fn spec_bit_or(self, rhs: Usize) -> Usize {
        match (self, rhs) {
            (Usize::U32(a), Usize::U32(b)) => Usize::U32(a | b),
            (Usize::U64(a), Usize::U64(b)) => Usize::U64(a | b),
            _ => self,
        }
    }

    /// Bitwise exclusive or.
    pub fn bit_xor(self, rhs: Usize) -> (r: Usize)
        requires
            self.width() == rhs.width(),
        ensures
            r == self.spec_bit_xor(rhs),
            r.width() == self.width(),
    {
        match (self, rhs) {
            (Usize::U32(a), Usize::U32(b)) => Usize::U32(a ^ b),
            (Usize::U64(a), Usize::U64(b)) => Usize::U64(a ^ b),
            _ => self,
        }
    }

    pub open spec fn spec_bit_xor(self, rhs: Usize) -> Usize {
        match (self, rhs) {
            (Usize::U32(a), Usize::U32(b)) => Usize::U32(a ^ b),
            (Usize::U64(a), Usize::U64(b)) => Usize::U64(a ^ b),
            _ => self,
        }
    }

    /// Bitwise complement.
    pub fn bit_not(self) -> (r: Usize)
        ensures
            r == self.spec_bit_not(),
            r.width() == self.width(),
    {
        match self {
            Usize::U32(a) => Usize::U32(!a),
            Usize::U64(a) => Usize::U64(!a),
        }
    }

    pub open spec fn spec_bit_not(self) -> Usize {
        match self {
            Usize::U32(a) => Usize::U32(!a),
            Usize::U64(a) => Usize::U64(!a),
        }
    }

    /// Logical shift left; a shift by the width or more yields zero.
    pub fn shl(self, s: u32) -> (r: Usize)
        ensures
            r == self.spec_shl(s),
            r.width() == self.width(),
    {
        match self {
            Usize::U32(a) => Usize::U32(if s >= 32 { 0 } else { a << s }),
            Usize::U64(a) => Usize::U64(if s >= 64 { 0 } else { a << s }),
        }
    }

    pub open spec fn spec_shl(self, s: u32) -> Usize {
        match self {
            Usize::U32(a) => Usize::U32(if s >= 32 { 0 } else { a << s }),
            Usize::U64(a) => Usize::U64(if s >= 64 { 0 } else { a << s }),
        }
    }

    /// Logical shift right; a shift by the width or more yields zero.
    pub fn shr(self, s: u32) -> (r: Usize)
        ensures
            r == self.spec_shr(s),
            r.width() == self.width(),
    {
        match self {
            Usize::U32(a) => Usize::U32(if s >= 32 { 0 } else { a >> s }),
            Usize::U64(a) => Usize::U64(if s >= 64 { 0 } else { a >> s }),
        }
    }

    pub open spec fn spec_shr(self, s: u32) -> Usize {
        match self {
            Usize::U32(a) => Usize::U32(if s >= 32 { 0 } else { a >> s }),
            Usize::U64(a) => Usize::U64(if s >= 64 { 0 } else { a >> s }),
        }
    }

    /// Unsigned comparison of two words of the same width.
    pub fn lt(self, rhs: Usize) -> (r: bool)
        requires
            self.width() == rhs.width(),
        ensures
            r == (self.as_nat() < rhs.as_nat()),
    {
        match (self, rhs) {
            (Usize::U32(a), Usize::U32(b)) => a < b,
            (Usize::U64(a), Usize::U64(b)) => a < b,
            _ => false,
        }
    }

    /// Unsigned greater-or-equal of two words of the same width.
    pub fn ge(self, rhs: Usize) -> (r: bool)
        requires
            self.width() == rhs.width(),
        ensures
            r == (self.as_nat() >= rhs.as_nat()),
    {
        match (self, rhs) {
            (Usize::U32(a), Usize::U32(b)) => a >= b,
            (Usize::U64(a), Usize::U64(b)) => a >= b,
            _ => false,
        }
    }
}

impl Isize {
    /// The word's width in bits.
    pub open spec fn width(self) -> nat {
        match self {
            Isize::I32(_) => 32,
            Isize::I64(_) => 64,
        }
    }

    /// The word read as a signed number.
    pub open spec fn as_int(self) -> int {
        match self {
            Isize::I32(a) => a as int,
            Isize::I64(a) => a as int,
        }
    }

    /// Whether the word's width is the one `xlen` asks for.
    pub open spec fn matches_xlen(self, xlen: Xlen) -> bool {
        self.width() == xlen.spec_bits()
    }

    /// The same bits read as an unsigned word.
    pub fn cast_to_usize(self) -> (r: Usize)
        ensures
            r == self.spec_cast_to_usize(),
    {
        match self {
            Isize::I32(a) => Usize::U32(a as u32),
            Isize::I64(a) => Usize::U64(a as u64),
        }
    }

    pub open spec fn spec_cast_to_usize(self) -> Usize {
        match self {
            Isize::I32(a) => Usize::U32(a as u32),
            Isize::I64(a) => Usize::U64(a as u64),
        }
    }

    /// Arithmetic shift right; a shift by the width or more yields all ones.
    pub fn shr_arith(self, s: u32) -> (r: Isize)
        ensures
            r == self.spec_shr_arith(s),
            r.width() == self.width(),
    {
        match self {
            Isize::I32(a) => Isize::I32(if s >= 32 { -1i32 } else { a >> s }),
            Isize::I64(a) => Isize::I64(if s >= 64 { -1i64 } else { a >> s }),
        }
    }

    pub open spec fn spec_shr_arith(self, s: u32) -> Isize {
        match self {
            Isize::I32(a) => Isize::I32(if s >= 32 { -1i32 } else { a >> s }),
            Isize::I64(a) => Isize::I64(if s >= 64 { -1i64 } else { a >> s }),
        }
    }

    /// Signed comparison of two words of the same width.
    pub fn lt(self, rhs: Isize) -> (r: bool)
        requires
            self.width() == rhs.width(),
        ensures
            r == (self.as_int() < rhs.as_int()),
    {
        match (self, rhs) {
            (Isize::I32(a), Isize::I32(b)) => a < b,
            (Isize::I64(a), Isize::I64(b)) => a < b,
            _ => false,
        }
    }

    /// Signed greater-or-equal of two words of the same width.
    pub fn ge(self, rhs: Isize) -> (r: bool)
        requires
            self.width() == rhs.width(),
        ensures
            r == (self.as_int() >= rhs.as_int()),
    {
        match (self, rhs) {
            (Isize::I32(a), Isize::I32(b)) => a >= b,
            (Isize::I64(a), Isize::I64(b)) => a >= b,
            _ => false,
        }
    }
}


/// Law: a logical shift by the word's width or more yields zero.
pub proof fn lemma_logical_shift_bound(u: Usize, s: u32)
    requires
        s >= u.width(),
    ensures
        u.spec_shl(s).as_nat() == 0,
        u.spec_shr(s).as_nat() == 0,
{
}

/// Law: an arithmetic right shift of a negative word by the word's
/// width or more yields all ones.
pub proof fn lemma_arith_shift_bound(i: Isize, s: u32)
    requires
        s >= i.width(),
        i.as_int() < 0,
    ensures
        i.spec_shr_arith(s).as_int() == -1,
{
}

} // verus!
