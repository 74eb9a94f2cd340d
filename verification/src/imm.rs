use vstd::prelude::*;

verus! {

use crate::Xlen;
use crate::size::Isize;
use crate::size::Usize;
use crate::size::iword_s;
use crate::size::uword;
use vstd::arithmetic::power2::pow2;
use vstd::arithmetic::power2::lemma_pow2_adds;
use vstd::arithmetic::power2::lemma_pow2_strictly_increases;
use vstd::arithmetic::power2::lemma2_to64;
use vstd::arithmetic::power2::lemma2_to64_rest;

/// An instruction immediate: a raw payload of which only the low
/// `valid_bits` (between 1 and 32) are meaningful, read signed.
///
/// The decoder is the only producer of immediates; the executor reads
/// them through `sext` and `low32` alone.
#[derive(Clone, Copy, PartialEq, Eq, Structural, Debug)]
pub struct Imm {
    pub data: u32,
    pub valid_bits: u8,
}

/// An instruction immediate read unsigned, with the same payload
/// discipline as `Imm`.
#[derive(Clone, Copy, PartialEq, Eq, Structural, Debug)]
pub struct Uimm {
    pub data: u32,
    pub valid_bits: u8,
}

impl Imm {
    /// The payload discipline: at least one and at most 32 valid bits.
    pub open spec fn wf(self) -> bool {
        1 <= self.valid_bits <= 32
    }

    /// The payload with the bits above `valid_bits` masked off.
    pub open spec fn masked(self) -> nat {
        self.data as nat % pow2(self.valid_bits as nat)
    }

    /// The signed value: the masked payload with its top valid bit
    /// extended downward.
    pub open spec fn sext_val(self) -> int {
        if self.masked() >= pow2((self.valid_bits - 1) as nat) {
            self.masked() - pow2(self.valid_bits as nat)
        } else {
            self.masked() as int
        }
    }

    pub fn new(data: u32, valid_bits: u8) -> (r: Imm)
        requires
            1 <= valid_bits <= 32,
        ensures
            r.data == data,
            r.valid_bits == valid_bits,
            r.wf(),
    {
        Imm { data, valid_bits }
    }

    /// The valid payload sign-extended into a signed word of the
    /// machine's width.
    pub fn sext(self, xlen: Xlen) -> (r: Isize)
        requires
            self.wf(),
            xlen != Xlen::X128,
        ensures
            r.matches_xlen(xlen),
            r.as_int() == self.sext_val(),
            r == iword_s(xlen, self.sext_val()),
    {
        let v = sext_valid_bits(self.data, self.valid_bits);
        proof {
            lemma_sext_range(self.data, self.valid_bits);
        }
        match xlen {
            Xlen::X32 => Isize::I32(v as i32),
            Xlen::X64 => Isize::I64(v),
            Xlen::X128 => Isize::I64(v),
        }
    }

    /// The valid payload sign-extended into a plain 32-bit signed value.
    pub fn sext32(self) -> (r: i32)
        requires
            self.wf(),
        ensures
            r == self.sext_val() as i32,
            r as int == self.sext_val(),
    {
        let v = sext_valid_bits(self.data, self.valid_bits);
        proof {
            lemma_sext_range(self.data, self.valid_bits);
        }
        v as i32
    }

    /// The same payload read unsigned.
    pub fn as_uimm(self) -> (r: Uimm)
        ensures
            r.data == self.data,
            r.valid_bits == self.valid_bits,
    {
        Uimm { data: self.data, valid_bits: self.valid_bits }
    }

    /// The masked payload as a plain 32-bit value; the executor uses it
    /// only for shift amounts.
    pub fn low32(self) -> (r: u32)
        requires
            self.wf(),
        ensures
            r == self.masked(),
    {
        masked_payload(self.data, self.valid_bits)
    }
}

impl Uimm {
    /// The payload discipline: at least one and at most 32 valid bits.
    pub open spec fn wf(self) -> bool {
        1 <= self.valid_bits <= 32
    }

    /// The payload with the bits above `valid_bits` masked off.
    pub open spec fn masked(self) -> nat {
        self.data as nat % pow2(self.valid_bits as nat)
    }

    /// The signed value of the masked payload, as `Imm::sext_val`.
    pub open spec fn sext_val(self) -> int {
        if self.masked() >= pow2((self.valid_bits - 1) as nat) {
            self.masked() - pow2(self.valid_bits as nat)
        } else {
            self.masked() as int
        }
    }

    pub fn new(data: u32, valid_bits: u8) -> (r: Uimm)
        requires
            1 <= valid_bits <= 32,
        ensures
            r.data == data,
            r.valid_bits == valid_bits,
            r.wf(),
    {
        Uimm { data, valid_bits }
    }

    /// The valid payload zero-extended into an unsigned word of the
    /// machine's width.
    pub fn zext(self, xlen: Xlen) -> (r: Usize)
        requires
            self.wf(),
            xlen != Xlen::X128,
        ensures
            r.matches_xlen(xlen),
            r.as_nat() == self.masked(),
            r == uword(xlen, self.masked()),
    {
        let m = masked_payload(self.data, self.valid_bits);
        match xlen {
            Xlen::X32 => Usize::U32(m),
            Xlen::X64 => Usize::U64(m as u64),
            Xlen::X128 => Usize::U64(m as u64),
        }
    }

    /// The valid payload sign-extended into a signed word of the
    /// machine's width.
    pub fn sext(self, xlen: Xlen) -> (r: Isize)
        requires
            self.wf(),
            xlen != Xlen::X128,
        ensures
            r.matches_xlen(xlen),
            r.as_int() == self.sext_val(),
            r == iword_s(xlen, self.sext_val()),
    {
        let v = sext_valid_bits(self.data, self.valid_bits);
        proof {
            lemma_sext_range(self.data, self.valid_bits);
        }
        match xlen {
            Xlen::X32 => Isize::I32(v as i32),
            Xlen::X64 => Isize::I64(v),
            Xlen::X128 => Isize::I64(v),
        }
    }
}

/// The low `valid_bits` bits of `data`.
fn masked_payload(data: u32, valid_bits: u8) -> (r: u32)
    requires
        1 <= valid_bits <= 32,
    ensures
        r == data as nat % pow2(valid_bits as nat),
{
    proof {
        lemma_pow2_32_facts(valid_bits);
    }
    let p2: u64 = 1u64 << (valid_bits as u64);
    ((data as u64) % p2) as u32
}

/// The low `valid_bits` bits of `data`, the top one of them extended.
fn sext_valid_bits(data: u32, valid_bits: u8) -> (v: i64)
    requires
        1 <= valid_bits <= 32,
    ensures
        v == (Imm { data, valid_bits }).sext_val(),
{
    proof {
        lemma_pow2_32_facts(valid_bits);
    }
    let p2: u64 = 1u64 << (valid_bits as u64);
    let m: u64 = (data as u64) % p2;
    let half: u64 = p2 / 2;
    if m >= half {
        (m as i64) - (p2 as i64)
    } else {
        m as i64
    }
}

/// Facts about the powers of two a 1-to-32-bit payload needs.
proof fn lemma_pow2_32_facts(valid_bits: u8)
    requires
        1 <= valid_bits <= 32,
    ensures
        (1u64 << (valid_bits as u64)) == pow2(valid_bits as nat),
        pow2(valid_bits as nat) == 2 * pow2((valid_bits - 1) as nat),
        pow2((valid_bits - 1) as nat) <= 0x80000000,
        pow2(valid_bits as nat) <= 0x100000000,
        pow2((valid_bits - 1) as nat) >= 1,
        pow2(valid_bits as nat) >= 2,
{
    vstd::arithmetic::power2::lemma_pow2_pos((valid_bits - 1) as nat);
    vstd::arithmetic::power2::lemma_pow2_pos(valid_bits as nat);
    lemma2_to64();
    lemma2_to64_rest();
    if (valid_bits as nat) < 32 {
        lemma_pow2_strictly_increases(valid_bits as nat, 32);
    }
    if ((valid_bits - 1) as nat) < 31 {
        lemma_pow2_strictly_increases((valid_bits - 1) as nat, 31);
    }
    lemma_pow2_adds((valid_bits - 1) as nat, 1);
    vstd::bits::lemma_u64_shl_is_mul(1u64, valid_bits as u64);
}

/// The sign-extended value of a payload lies within the 32-bit signed
/// range.
proof fn lemma_sext_range(data: u32, valid_bits: u8)
    requires
        1 <= valid_bits <= 32,
    ensures
        -0x80000000 <= (Imm { data, valid_bits }).sext_val() < 0x80000000,
{
    lemma_pow2_32_facts(valid_bits);
    vstd::arithmetic::div_mod::lemma_mod_bound(
        data as int,
        pow2(valid_bits as nat) as int,
    );
}

} // verus!
