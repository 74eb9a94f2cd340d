use vstd::prelude::*;

verus! {

use crate::Xlen;
use crate::size::Isize;
use crate::size::Usize;
use crate::size::iword;
use crate::size::uword;

/// The register file after a write of `w` to register `rd`: register 0
/// is hard-wired to zero, so a write to it changes nothing.
pub open spec fn xw(s: Seq<Usize>, rd: u8, w: Usize) -> Seq<Usize> {
    if rd == 0 {
        s
    } else {
        s.update(rd as int, w)
    }
}

/// Law: a write to register 0 is a no-op, and register 0 keeps its
/// value (zero, by the file's well-formedness) under every write.
pub proof fn lemma_x0_zero(s: Seq<Usize>, rd: u8, w: Usize)
    requires
        s.len() == 32,
        rd < 32,
    ensures
        rd == 0 ==> xw(s, rd, w) == s,
        xw(s, rd, w)[0] == s[0],
{
}

/// The integer register file: 32 words of the machine's width, with
/// register 0 architecturally zero.
pub struct XReg {
    x: Vec<Usize>,
    xlen: Xlen,
}

impl View for XReg {
    type V = Seq<Usize>;

    closed spec fn view(&self) -> Seq<Usize> {
        self.x@
    }
}

impl XReg {
    /// The machine width the file was created with.
    pub closed spec fn spec_xlen(self) -> Xlen {
        self.xlen
    }

    /// Well-formed: 32 registers, all of the machine's width, and
    /// register 0 zero.
    pub open spec fn wf(self) -> bool {
        &&& self@.len() == 32
        &&& self.spec_xlen() != Xlen::X128
        &&& forall|i: int| 0 <= i < 32 ==> (#[trigger] self@[i]).matches_xlen(self.spec_xlen())
        &&& self@[0].as_nat() == 0
    }

    /// A fresh file of 32 zero registers.
    pub fn new_zeroed(xlen: Xlen) -> (r: XReg)
        requires
            xlen != Xlen::X128,
        ensures
            r.wf(),
            r.spec_xlen() == xlen,
            forall|i: int| 0 <= i < 32 ==> (#[trigger] r@[i]).as_nat() == 0,
    {
        let mut x: Vec<Usize> = Vec::new();
        let mut k: usize = 0;
        while k < 32
            invariant
                xlen != Xlen::X128,
                x@.len() == k <= 32,
                forall|i: int|
                    0 <= i < k ==> (#[trigger] x@[i]).matches_xlen(xlen) && x@[i].as_nat() == 0,
            decreases 32 - k,
        {
            x.push(Usize::zero(xlen));
            k = k + 1;
        }
        XReg { x, xlen }
    }

    /// Read a register as an unsigned word.
    pub fn r_usize(&self, idx: u8) -> (r: Usize)
        requires
            self.wf(),
            idx < 32,
        ensures
            r == self@[idx as int],
    {
        *vstd::std_specs::vec::vec_index(&self.x, idx as usize)
    }

    /// Read a register as a signed word.
    pub fn r_isize(&self, idx: u8) -> (r: Isize)
        requires
            self.wf(),
            idx < 32,
        ensures
            r == self@[idx as int].spec_as_signed(),
    {
        self.r_usize(idx).as_signed()
    }

    /// Read a register's low byte.
    pub fn r_u8(&self, idx: u8) -> (r: u8)
        requires
            self.wf(),
            idx < 32,
        ensures
            r == self@[idx as int].as_nat() % 0x100,
    {
        match self.r_usize(idx) {
            Usize::U32(a) => (a % 0x100) as u8,
            Usize::U64(a) => (a % 0x100) as u8,
        }
    }

    /// Read a register's low two bytes.
    pub fn r_u16(&self, idx: u8) -> (r: u16)
        requires
            self.wf(),
            idx < 32,
        ensures
            r == self@[idx as int].as_nat() % 0x10000,
    {
        match self.r_usize(idx) {
            Usize::U32(a) => (a % 0x10000) as u16,
            Usize::U64(a) => (a % 0x10000) as u16,
        }
    }

    /// Read a register's low four bytes.
    pub fn r_u32(&self, idx: u8) -> (r: u32)
        requires
            self.wf(),
            idx < 32,
        ensures
            r == self@[idx as int].as_nat() % 0x1_0000_0000,
            r == self@[idx as int].spec_low_u32(),
    {
        self.r_usize(idx).low_u32()
    }

    /// Read a register's low four bytes as a signed value.
    pub fn r_i32(&self, idx: u8) -> (r: i32)
        requires
            self.wf(),
            idx < 32,
        ensures
            r == self@[idx as int].spec_low_u32() as i32,
    {
        self.r_u32(idx) as i32
    }

    /// Read a whole 64-bit register; only a 64-bit machine has one.
    pub fn r_u64(&self, idx: u8) -> (r: u64)
        requires
            self.wf(),
            idx < 32,
            self.spec_xlen() == Xlen::X64,
        ensures
            r == self@[idx as int].as_nat(),
    {
        match self.r_usize(idx) {
            Usize::U32(a) => a as u64,
            Usize::U64(a) => a,
        }
    }

    /// Write a word of the machine's width; a write to register 0 is
    /// dropped.
    pub fn w_usize(&mut self, idx: u8, val: Usize)
        requires
            old(self).wf(),
            idx < 32,
            val.matches_xlen(old(self).spec_xlen()),
        ensures
            final(self).wf(),
            final(self).spec_xlen() == old(self).spec_xlen(),
            final(self)@ == xw(old(self)@, idx, val),
    {
        if idx == 0 {
            return ;
        }
        self.x.set(idx as usize, val);
    }

    /// Write a signed word, stored by its two's-complement bits.
    pub fn w_isize(&mut self, idx: u8, val: Isize)
        requires
            old(self).wf(),
            idx < 32,
            val.matches_xlen(old(self).spec_xlen()),
        ensures
            final(self).wf(),
            final(self).spec_xlen() == old(self).spec_xlen(),
            final(self)@ == xw(old(self)@, idx, val.spec_cast_to_usize()),
    {
        self.w_usize(idx, val.cast_to_usize());
    }

    /// Write a byte zero-extended to the machine's width.
    pub fn w_zext8(&mut self, idx: u8, val: u8)
        requires
            old(self).wf(),
            idx < 32,
        ensures
            final(self).wf(),
            final(self).spec_xlen() == old(self).spec_xlen(),
            final(self)@ == xw(old(self)@, idx, uword(old(self).spec_xlen(), val as nat)),
    {
        let w = match self.xlen {
            Xlen::X32 => Usize::U32(val as u32),
            Xlen::X64 => Usize::U64(val as u64),
            Xlen::X128 => Usize::U64(val as u64),
        };
        self.w_usize(idx, w);
    }

    /// Write two bytes zero-extended to the machine's width.
    pub fn w_zext16(&mut self, idx: u8, val: u16)
        requires
            old(self).wf(),
            idx < 32,
        ensures
            final(self).wf(),
            final(self).spec_xlen() == old(self).spec_xlen(),
            final(self)@ == xw(old(self)@, idx, uword(old(self).spec_xlen(), val as nat)),
    {
        let w = match self.xlen {
            Xlen::X32 => Usize::U32(val as u32),
            Xlen::X64 => Usize::U64(val as u64),
            Xlen::X128 => Usize::U64(val as u64),
        };
        self.w_usize(idx, w);
    }

    /// Write four bytes zero-extended to the machine's width.
    pub fn w_zext32(&mut self, idx: u8, val: u32)
        requires
            old(self).wf(),
            idx < 32,
        ensures
            final(self).wf(),
            final(self).spec_xlen() == old(self).spec_xlen(),
            final(self)@ == xw(old(self)@, idx, uword(old(self).spec_xlen(), val as nat)),
    {
        let w = match self.xlen {
            Xlen::X32 => Usize::U32(val),
            Xlen::X64 => Usize::U64(val as u64),
            Xlen::X128 => Usize::U64(val as u64),
        };
        self.w_usize(idx, w);
    }

    /// Write a byte sign-extended to the machine's width.
    pub fn w_sext8(&mut self, idx: u8, val: i8)
        requires
            old(self).wf(),
            idx < 32,
        ensures
            final(self).wf(),
            final(self).spec_xlen() == old(self).spec_xlen(),
            final(self)@ == xw(old(self)@, idx, iword(old(self).spec_xlen(), val as int)),
    {
        let w = match self.xlen {
            Xlen::X32 => Usize::U32((val as i32) as u32),
            Xlen::X64 => Usize::U64((val as i64) as u64),
            Xlen::X128 => Usize::U64((val as i64) as u64),
        };
        self.w_usize(idx, w);
    }

    /// Write two bytes sign-extended to the machine's width.
    pub fn w_sext16(&mut self, idx: u8, val: i16)
        requires
            old(self).wf(),
            idx < 32,
        ensures
            final(self).wf(),
            final(self).spec_xlen() == old(self).spec_xlen(),
            final(self)@ == xw(old(self)@, idx, iword(old(self).spec_xlen(), val as int)),
    {
        let w = match self.xlen {
            Xlen::X32 => Usize::U32((val as i32) as u32),
            Xlen::X64 => Usize::U64((val as i64) as u64),
            Xlen::X128 => Usize::U64((val as i64) as u64),
        };
        self.w_usize(idx, w);
    }

    /// Write four bytes sign-extended to the machine's width.
    pub fn w_sext32(&mut self, idx: u8, val: i32)
        requires
            old(self).wf(),
            idx < 32,
        ensures
            final(self).wf(),
            final(self).spec_xlen() == old(self).spec_xlen(),
            final(self)@ == xw(old(self)@, idx, iword(old(self).spec_xlen(), val as int)),
    {
        let w = match self.xlen {
            Xlen::X32 => Usize::U32(val as u32),
            Xlen::X64 => Usize::U64((val as i64) as u64),
            Xlen::X128 => Usize::U64((val as i64) as u64),
        };
        self.w_usize(idx, w);
    }

    /// Write a whole 64-bit value; only a 64-bit machine takes one.
    pub fn w_sext64(&mut self, idx: u8, val: i64)
        requires
            old(self).wf(),
            idx < 32,
            old(self).spec_xlen() == Xlen::X64,
        ensures
            final(self).wf(),
            final(self).spec_xlen() == old(self).spec_xlen(),
            final(self)@ == xw(old(self)@, idx, iword(old(self).spec_xlen(), val as int)),
    {
        let w = Usize::U64(val as u64);
        self.w_usize(idx, w);
    }
}

/// The floating-point scratch registers: decoded only, never operated
/// on by this core.
pub struct FReg {
    f: Vec<u128>,
}

impl View for FReg {
    type V = Seq<u128>;

    closed spec fn view(&self) -> Seq<u128> {
        self.f@
    }
}

impl FReg {
    /// A fresh file of 32 zero slots.
    pub fn new_zeroed() -> (r: FReg)
        ensures
            r@.len() == 32,
            forall|i: int| 0 <= i < 32 ==> r@[i] == 0u128,
    {
        let mut f: Vec<u128> = Vec::new();
        let mut k: usize = 0;
        while k < 32
            invariant
                f@.len() == k <= 32,
                forall|i: int| 0 <= i < k ==> f@[i] == 0u128,
            decreases 32 - k,
        {
            f.push(0u128);
            k = k + 1;
        }
        FReg { f }
    }
}

/// The control-and-status register file: the floating-point CSR with
/// its FFLAGS/FRM aliases, and zero-initialized storage for every other
/// slot.
pub struct Csr {
    fcsr: u32,
    store: Vec<u64>,
    xlen: Xlen,
}

pub const CSR_FFLAGS: u16 = 0x001;

pub const CSR_FRM: u16 = 0x002;

pub const CSR_FCSR: u16 = 0x003;

/// How one CSR write relates the file before (`pre`) and after
/// (`post`): the three floating-point indices read-modify-write the
/// backing FCSR; every other index stores the word's value.
pub open spec fn csr_written(pre: Csr, idx: u16, a: Usize, post: Csr) -> bool {
    &&& post.spec_xlen() == pre.spec_xlen()
    &&& (idx == CSR_FFLAGS ==> post.spec_fcsr() == ((pre.spec_fcsr() & 0xFFFF_FFE0) | (
    a.spec_low_u32() & 0x1F)) && post.slots() == pre.slots())
    &&& (idx == CSR_FRM ==> post.spec_fcsr() == ((pre.spec_fcsr() & 0xFFFF_FF1F) | ((
    a.spec_low_u32() & 0x7) << 5)) && post.slots() == pre.slots())
    &&& (idx == CSR_FCSR ==> post.spec_fcsr() == (a.spec_low_u32() & 0xFF) && post.slots()
        == pre.slots())
    &&& (!(idx == CSR_FFLAGS || idx == CSR_FRM || idx == CSR_FCSR) ==> post.slots()
        == pre.slots().update(idx as int, a.as_nat() as u64) && post.spec_fcsr()
        == pre.spec_fcsr())
}

impl Csr {
    /// The machine width the file was created with.
    pub closed spec fn spec_xlen(self) -> Xlen {
        self.xlen
    }

    /// The backing floating-point CSR: FFLAGS is its bits 4:0, FRM its
    /// bits 7:5.
    pub closed spec fn spec_fcsr(self) -> u32 {
        self.fcsr
    }

    /// The plain storage slots behind every other index.
    pub closed spec fn slots(self) -> Seq<u64> {
        self.store@
    }

    /// Well-formed: 4096 slots, each clamped to the machine's width.
    pub open spec fn wf(self) -> bool {
        &&& self.spec_xlen() != Xlen::X128
        &&& self.slots().len() == 4096
        &&& self.spec_xlen() == Xlen::X32 ==> forall|i: int|
            0 <= i < 4096 ==> (#[trigger] self.slots()[i]) < 0x1_0000_0000
    }

    /// What a read of `csr` returns: the aliased FCSR fields for the
    /// three floating-point indices, the stored slot otherwise.
    pub open spec fn spec_read(self, csr: u16) -> nat {
        if csr == CSR_FFLAGS {
            (self.spec_fcsr() & 0x1F) as nat
        } else if csr == CSR_FRM {
            ((self.spec_fcsr() >> 5) & 0x7) as nat
        } else if csr == CSR_FCSR {
            (self.spec_fcsr() & 0xFF) as nat
        } else {
            self.slots()[csr as int] as nat
        }
    }

    /// A fresh file of zeroed slots.
    pub fn new(xlen: Xlen) -> (r: Csr)
        requires
            xlen != Xlen::X128,
        ensures
            r.wf(),
            r.spec_xlen() == xlen,
            r.spec_fcsr() == 0,
            forall|i: int| 0 <= i < 4096 ==> (#[trigger] r.slots()[i]) == 0u64,
    {
        let mut store: Vec<u64> = Vec::new();
        let mut k: usize = 0;
        while k < 4096
            invariant
                store@.len() == k <= 4096,
                forall|i: int| 0 <= i < k ==> (#[trigger] store@[i]) == 0u64,
            decreases 4096 - k,
        {
            store.push(0u64);
            k = k + 1;
        }
        Csr { fcsr: 0, store, xlen }
    }

    /// Read a CSR, clamped to the machine's width.
    pub fn r_usize(&self, csr: u16) -> (r: Usize)
        requires
            self.wf(),
            csr < 4096,
        ensures
            r.matches_xlen(self.spec_xlen()),
            r.as_nat() == self.spec_read(csr),
    {
        if csr == CSR_FFLAGS {
            self.u32_to_usize(self.fcsr & 0x1F)
        } else if csr == CSR_FRM {
            self.u32_to_usize((self.fcsr >> 5) & 0x7)
        } else if csr == CSR_FCSR {
            self.u32_to_usize(self.fcsr & 0xFF)
        } else {
            let v = *vstd::std_specs::vec::vec_index(&self.store, csr as usize);
            match self.xlen {
                Xlen::X32 => Usize::U32(v as u32),
                Xlen::X64 => Usize::U64(v),
                Xlen::X128 => Usize::U64(v),
            }
        }
    }

    /// Write a CSR: the three floating-point indices read-modify-write
    /// the backing FCSR; every other index stores the word.
    pub fn w_usize(&mut self, csr: u16, a: Usize)
        requires
            old(self).wf(),
            csr < 4096,
            a.matches_xlen(old(self).spec_xlen()),
        ensures
            final(self).wf(),
            csr_written(*old(self), csr, a, *final(self)),
    {
        if csr == CSR_FFLAGS {
            self.fcsr = (self.fcsr & 0xFFFF_FFE0) | (a.low_u32() & 0x1F);
        } else if csr == CSR_FRM {
            self.fcsr = (self.fcsr & 0xFFFF_FF1F) | ((a.low_u32() & 0x7) << 5);
        } else if csr == CSR_FCSR {
            self.fcsr = a.low_u32() & 0xFF;
        } else {
            let v: u64 = a.to_mem_addr();
            self.store.set(csr as usize, v);
        }
    }

    fn u32_to_usize(&self, a: u32) -> (r: Usize)
        requires
            self.wf(),
        ensures
            r.matches_xlen(self.spec_xlen()),
            r.as_nat() == a,
    {
        match self.xlen {
            Xlen::X32 => Usize::U32(a),
            Xlen::X64 => Usize::U64(a as u64),
            Xlen::X128 => Usize::U64(a as u64),
        }
    }
}

} // verus!
