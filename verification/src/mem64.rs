use vstd::prelude::*;

verus! {

use vstd::arithmetic::power2::pow2;
use vstd::arithmetic::power2::lemma_pow2_adds;
use vstd::arithmetic::power2::lemma2_to64;

/// Protection bits of a section: which access intents it allows.
#[derive(Clone, Copy, PartialEq, Eq, Structural, Debug)]
pub struct Protect {
    pub read: bool,
    pub write: bool,
    pub execute: bool,
}

impl Protect {
    /// No access allowed.
    pub fn empty() -> (r: Protect)
        ensures
            !r.read && !r.write && !r.execute,
    {
        Protect { read: false, write: false, execute: false }
    }

    /// Whether an access with the given intent is allowed.
    pub open spec fn spec_allows(self, intent: Intent) -> bool {
        match intent {
            Intent::Read => self.read,
            Intent::Write => self.write,
            Intent::Execute => self.execute,
        }
    }
}

/// The byte order a section's multi-byte values are stored in.
#[derive(Clone, Copy, PartialEq, Eq, Structural, Debug)]
pub enum Endian {
    Big,
    Little,
}

/// The intent of a typed access.
#[derive(Clone, Copy, PartialEq, Eq, Structural, Debug)]
pub enum Intent {
    Read,
    Write,
    Execute,
}

impl Intent {
    /// The fault an access of this intent raises when the section's
    /// protection does not allow it.
    pub open spec fn spec_fault(self, addr: u64) -> MemError {
        match self {
            Intent::Read => MemError::CannotRead { addr },
            Intent::Write => MemError::CannotWrite { addr },
            Intent::Execute => MemError::CannotExecute { addr },
        }
    }
}

/// A memory fault, carrying the faulting address.
#[derive(Clone, Copy, PartialEq, Eq, Structural, Debug)]
pub enum MemError {
    CannotRead { addr: u64 },
    CannotWrite { addr: u64 },
    CannotExecute { addr: u64 },
    NoMemory { addr: u64 },
}

/// What a section is created from: its guest address range `[lo, hi)`,
/// its protection and its byte order.
#[derive(Clone, Copy, PartialEq, Eq, Structural, Debug)]
pub struct Config {
    pub lo: u64,
    pub hi: u64,
    pub protect: Protect,
    pub endian: Endian,
}

/// The mathematical model of one section: its range, protection, byte
/// order, and the byte it holds at each address of the range.
pub struct SectionModel {
    pub lo: u64,
    pub hi: u64,
    pub protect: Protect,
    pub endian: Endian,
    pub bytes: Seq<u8>,
}

impl SectionModel {
    /// The backing holds exactly one byte for each address of the range.
    pub open spec fn wf(self) -> bool {
        self.lo <= self.hi && self.bytes.len() == self.hi - self.lo
    }

    /// Whether `addr` falls inside the section's range.
    pub open spec fn has_addr(self, addr: u64) -> bool {
        self.lo <= addr < self.hi
    }

    /// Whether the two sections' ranges share no address.
    pub open spec fn disjoint(self, other: SectionModel) -> bool {
        self.hi <= other.lo || other.hi <= self.lo
    }
}

/// One mapped section: a half-open range of guest addresses together with
/// the owned bytes that back it.
struct Section {
    lo: u64,
    hi: u64,
    protect: Protect,
    endian: Endian,
    bytes: Vec<u8>,
}

impl View for Section {
    type V = SectionModel;

    closed spec fn view(&self) -> SectionModel {
        SectionModel {
            lo: self.lo,
            hi: self.hi,
            protect: self.protect,
            endian: self.endian,
            bytes: self.bytes@,
        }
    }
}

/// The value of a little-endian byte string: the first byte is least
/// significant.
pub open spec fn le_val(s: Seq<u8>) -> nat
    decreases s.len(),
{
    if s.len() == 0 {
        0
    } else {
        (le_val(s.drop_last()) + s.last() * pow2(8 * (s.len() - 1) as nat)) as nat
    }
}

/// The value of a big-endian byte string: the first byte is most
/// significant.
pub open spec fn be_val(s: Seq<u8>) -> nat
    decreases s.len(),
{
    if s.len() == 0 {
        0
    } else {
        (be_val(s.drop_last()) * 256 + s.last()) as nat
    }
}

/// The low `n` bytes of a value, least significant first.
pub open spec fn le_bytes(v: nat, n: nat) -> Seq<u8>
    decreases n,
{
    if n == 0 {
        Seq::empty()
    } else {
        seq![(v % 256) as u8] + le_bytes(v / 256, (n - 1) as nat)
    }
}

/// The low `n` bytes of a value, most significant first.
pub open spec fn be_bytes(v: nat, n: nat) -> Seq<u8> {
    le_bytes(v, n).reverse()
}

pub proof fn lemma_le_val_bound(s: Seq<u8>)
    ensures
        le_val(s) < pow2(8 * s.len()),
    decreases s.len(),
{
    if s.len() == 0 {
        lemma2_to64();
    } else {
        lemma_le_val_bound(s.drop_last());
        lemma_pow2_adds(8 * (s.len() - 1) as nat, 8);
        lemma2_to64();
        let p = pow2(8 * (s.len() - 1) as nat);
        assert(le_val(s.drop_last()) + s.last() * p < p * 256) by (nonlinear_arith)
            requires
                le_val(s.drop_last()) < p,
                s.last() < 256,
        ;
    }
}

pub proof fn lemma_be_val_bound(s: Seq<u8>)
    ensures
        be_val(s) < pow2(8 * s.len()),
    decreases s.len(),
{
    if s.len() == 0 {
        lemma2_to64();
    } else {
        lemma_be_val_bound(s.drop_last());
        lemma_pow2_adds(8 * (s.len() - 1) as nat, 8);
        lemma2_to64();
        let p = pow2(8 * (s.len() - 1) as nat);
        assert(be_val(s.drop_last()) * 256 + s.last() < p * 256) by (nonlinear_arith)
            requires
                be_val(s.drop_last()) < p,
                s.last() < 256,
        ;
    }
}

/// A sectioned, permission-bearing guest address space.
pub struct Physical {
    sections: Vec<Section>,
}

impl View for Physical {
    type V = Seq<SectionModel>;

    closed spec fn view(&self) -> Seq<SectionModel> {
        self.sections@.map_values(|s: Section| s@)
    }
}

impl Physical {
    /// The mathematical model: the sequence of sections, in insertion order.
    pub open spec fn sections(self) -> Seq<SectionModel> {
        self@
    }

    /// Well-formed: every section is well-formed and no two sections'
    /// ranges overlap.
    pub open spec fn wf(self) -> bool {
        &&& forall|i: int|
            0 <= i < self.sections().len() ==> (#[trigger] self.sections()[i]).wf()
        &&& forall|i: int, j: int|
            0 <= i < j < self.sections().len() ==> #[trigger] self.sections()[i].disjoint(
                self.sections()[j],
            )
    }

    /// Whether some section's range holds `addr`.
    pub open spec fn has_section(self, addr: u64) -> bool {
        exists|i: int|
            0 <= i < self.sections().len() && (#[trigger] self.sections()[i]).has_addr(addr)
    }

    /// The index of the section whose range holds `addr`; meaningful only
    /// when `has_section(addr)` holds, and then unique by disjointness.
    pub open spec fn section_index(self, addr: u64) -> int {
        choose|i: int|
            0 <= i < self.sections().len() && (#[trigger] self.sections()[i]).has_addr(addr)
    }

    /// In a well-formed memory at most one section holds an address.
    pub proof fn lemma_section_unique(self, addr: u64, i: int, j: int)
        requires
            self.wf(),
            0 <= i < self.sections().len(),
            0 <= j < self.sections().len(),
            self.sections()[i].has_addr(addr),
            self.sections()[j].has_addr(addr),
        ensures
            i == j,
    {
        if i < j {
            assert(self.sections()[i].disjoint(self.sections()[j]));
        } else if j < i {
            assert(self.sections()[j].disjoint(self.sections()[i]));
        }
    }

    /// Whether `[lo, hi)` shares no address with any existing section.
    pub open spec fn range_free(self, lo: u64, hi: u64) -> bool {
        forall|i: int|
            0 <= i < self.sections().len() ==> ((#[trigger] self.sections()[i]).hi <= lo || hi
                <= self.sections()[i].lo)
    }

    /// Where an `n`-byte access at `addr` with the given intent lands:
    /// the index of the section that serves it, or the fault it raises.
    ///
    /// An address in no section faults with `NoMemory` at the address; a
    /// section that does not allow the intent faults with the intent's
    /// fault at the address; an access window that runs past the section's
    /// end faults with `NoMemory` at the first address past the section.
    pub open spec fn spec_locate(self, addr: u64, n: nat, intent: Intent) -> Result<int, MemError> {
        if !self.has_section(addr) {
            Err(MemError::NoMemory { addr })
        } else {
            let i = self.section_index(addr);
            let s = self.sections()[i];
            if !s.protect.spec_allows(intent) {
                Err(intent.spec_fault(addr))
            } else if addr + n > s.hi {
                Err(MemError::NoMemory { addr: s.hi })
            } else {
                Ok(i)
            }
        }
    }

    /// The bytes an `n`-byte access at `addr` sees, before endianness.
    pub open spec fn spec_read_bytes(self, addr: u64, n: nat, intent: Intent) -> Result<
        Seq<u8>,
        MemError,
    > {
        match self.spec_locate(addr, n, intent) {
            Ok(i) => {
                let s = self.sections()[i];
                Ok(s.bytes.subrange(addr - s.lo, addr - s.lo + n))
            },
            Err(e) => Err(e),
        }
    }

    /// The unsigned value an `n`-byte access at `addr` reads, assembled in
    /// the section's byte order.
    pub open spec fn spec_read_uint(self, addr: u64, n: nat, intent: Intent) -> Result<
        nat,
        MemError,
    > {
        match self.spec_read_bytes(addr, n, intent) {
            Ok(w) => {
                let s = self.sections()[self.section_index(addr)];
                match s.endian {
                    Endian::Little => Ok(le_val(w)),
                    Endian::Big => Ok(be_val(w)),
                }
            },
            Err(e) => Err(e),
        }
    }

    /// The memory model after an `n`-byte store of the low bytes of `val`
    /// at `addr`, or the fault the store raises.  The stored-to section's
    /// bytes change only inside the access window; everything else is kept.
    pub open spec fn spec_write_uint(self, addr: u64, val: u64, n: nat) -> Result<
        Seq<SectionModel>,
        MemError,
    > {
        match self.spec_locate(addr, n, Intent::Write) {
            Ok(i) => {
                let s = self.sections()[i];
                let off = addr - s.lo;
                let w = match s.endian {
                    Endian::Little => le_bytes(val as nat, n),
                    Endian::Big => be_bytes(val as nat, n),
                };
                let nb = Seq::new(
                    s.bytes.len(),
                    |j: int| if off <= j < off + n { w[j - off] } else { s.bytes[j] },
                );
                Ok(self.sections().update(i, SectionModel { bytes: nb, ..s }))
            },
            Err(e) => Err(e),
        }
    }

    /// A fresh address space with no sections.
    pub fn new() -> (r: Physical)
        ensures
            r.wf(),
            r.sections().len() == 0,
    {
        Physical { sections: Vec::new() }
    }
}


impl Physical {
    /// Push one section whose backing is already the right length.
    fn push_section(&mut self, config: Config, bytes: Vec<u8>)
        requires
            old(self).wf(),
            config.lo <= config.hi,
            bytes@.len() == config.hi - config.lo,
            old(self).range_free(config.lo, config.hi),
        ensures
            final(self).wf(),
            final(self).sections() == old(self).sections().push(
                SectionModel {
                    lo: config.lo,
                    hi: config.hi,
                    protect: config.protect,
                    endian: config.endian,
                    bytes: bytes@,
                },
            ),
    {
        let ghost old_model = self.sections();
        let ghost model = SectionModel {
            lo: config.lo,
            hi: config.hi,
            protect: config.protect,
            endian: config.endian,
            bytes: bytes@,
        };
        let section = Section {
            lo: config.lo,
            hi: config.hi,
            protect: config.protect,
            endian: config.endian,
            bytes,
        };
        self.sections.push(section);
        proof {
            assert(self.sections() =~= old_model.push(model));
            let n = self.sections().len();
            assert forall|i: int, j: int| 0 <= i < j < n implies #[trigger] self.sections()[
                i
            ].disjoint(self.sections()[j]) by {
                if j == n - 1 {
                    assert(old_model[i].hi <= config.lo || config.hi <= old_model[i].lo);
                }
            }
        }
    }

    /// Map a fresh zero-filled section at `config`'s range.
    pub fn push_zeroed(&mut self, config: Config)
        requires
            old(self).wf(),
            config.lo <= config.hi,
            config.hi - config.lo <= usize::MAX,
            old(self).range_free(config.lo, config.hi),
        ensures
            final(self).wf(),
            final(self).sections() == old(self).sections().push(
                SectionModel {
                    lo: config.lo,
                    hi: config.hi,
                    protect: config.protect,
                    endian: config.endian,
                    bytes: Seq::new((config.hi - config.lo) as nat, |j: int| 0u8),
                },
            ),
    {
        let len = (config.hi - config.lo) as usize;
        let mut bytes: Vec<u8> = Vec::new();
        while bytes.len() < len
            invariant
                bytes@.len() <= len,
                forall|j: int| 0 <= j < bytes@.len() ==> bytes@[j] == 0u8,
            decreases len - bytes.len(),
        {
            bytes.push(0u8);
        }
        proof {
            assert(bytes@ =~= Seq::new((config.hi - config.lo) as nat, |j: int| 0u8));
        }
        self.push_section(config, bytes);
    }

    /// Map a section backed by a copy of `data`, zero-filled up to the
    /// range's length.  A read-only backing cannot serve a writable
    /// section, so `config` must not allow writes.
    pub fn push_slice(&mut self, config: Config, data: &[u8])
        requires
            old(self).wf(),
            config.lo <= config.hi,
            config.hi - config.lo <= usize::MAX,
            data@.len() <= config.hi - config.lo,
            !config.protect.write,
            old(self).range_free(config.lo, config.hi),
        ensures
            final(self).wf(),
            final(self).sections() == old(self).sections().push(
                SectionModel {
                    lo: config.lo,
                    hi: config.hi,
                    protect: config.protect,
                    endian: config.endian,
                    bytes: Seq::new(
                        (config.hi - config.lo) as nat,
                        |j: int| if j < data@.len() { data@[j] } else { 0u8 },
                    ),
                },
            ),
    {
        let bytes = padded_copy(data, (config.hi - config.lo) as usize);
        self.push_section(config, bytes);
    }

    /// Map a section backed by a copy of the caller's mutable buffer,
    /// zero-filled up to the range's length.
    pub fn push_slice_mut(&mut self, config: Config, data: &mut [u8])
        requires
            old(self).wf(),
            config.lo <= config.hi,
            config.hi - config.lo <= usize::MAX,
            old(data)@.len() <= config.hi - config.lo,
            old(self).range_free(config.lo, config.hi),
        ensures
            final(data)@ == old(data)@,
            final(self).wf(),
            final(self).sections() == old(self).sections().push(
                SectionModel {
                    lo: config.lo,
                    hi: config.hi,
                    protect: config.protect,
                    endian: config.endian,
                    bytes: Seq::new(
                        (config.hi - config.lo) as nat,
                        |j: int| if j < old(data)@.len() { old(data)@[j] } else { 0u8 },
                    ),
                },
            ),
    {
        let bytes = padded_copy(data, (config.hi - config.lo) as usize);
        self.push_section(config, bytes);
    }

    /// Map a section that takes `data` as its backing, zero-filled up to
    /// the range's length.
    pub fn push_owned(&mut self, config: Config, data: Vec<u8>)
        requires
            old(self).wf(),
            config.lo <= config.hi,
            config.hi - config.lo <= usize::MAX,
            data@.len() <= config.hi - config.lo,
            old(self).range_free(config.lo, config.hi),
        ensures
            final(self).wf(),
            final(self).sections() == old(self).sections().push(
                SectionModel {
                    lo: config.lo,
                    hi: config.hi,
                    protect: config.protect,
                    endian: config.endian,
                    bytes: Seq::new(
                        (config.hi - config.lo) as nat,
                        |j: int| if j < data@.len() { data@[j] } else { 0u8 },
                    ),
                },
            ),
    {
        let ghost data0 = data@;
        let len = (config.hi - config.lo) as usize;
        let mut bytes = data;
        while bytes.len() < len
            invariant
                data0.len() <= bytes@.len() <= len,
                bytes@.subrange(0, data0.len() as int) == data0,
                forall|j: int| data0.len() <= j < bytes@.len() ==> bytes@[j] == 0u8,
            decreases len - bytes.len(),
        {
            let ghost pre = bytes@;
            bytes.push(0u8);
            proof {
                assert(bytes@.subrange(0, data0.len() as int) =~= pre.subrange(
                    0,
                    data0.len() as int,
                ));
            }
        }
        proof {
            assert(bytes@ =~= Seq::new(
                (config.hi - config.lo) as nat,
                |j: int| if j < data0.len() { data0[j] } else { 0u8 },
            ));
        }
        self.push_section(config, bytes);
    }

    /// Find the section that serves an `n`-byte access at `addr` with the
    /// given intent, or the fault the access raises.
    fn locate(&self, addr: u64, n: u64, intent: Intent) -> (r: Result<usize, MemError>)
        requires
            self.wf(),
            1 <= n <= 8,
        ensures
            match r {
                Ok(i) => self.spec_locate(addr, n as nat, intent) == Ok::<int, MemError>(i as int),
                Err(e) => self.spec_locate(addr, n as nat, intent) == Err::<int, MemError>(e),
            },
    {
        let len = self.sections.len();
        let mut k: usize = 0;
        while k < len
            invariant
                self.wf(),
                1 <= n <= 8,
                len == self.sections().len(),
                0 <= k <= len,
                forall|j: int| 0 <= j < k ==> !(#[trigger] self.sections()[j]).has_addr(addr),
            decreases len - k,
        {
            let s = &self.sections[k];
            if s.lo <= addr && addr < s.hi {
                proof {
                    assert(self.sections()[k as int].has_addr(addr));
                    let i0 = self.section_index(addr);
                    self.lemma_section_unique(addr, i0, k as int);
                }
                let allowed = match intent {
                    Intent::Read => s.protect.read,
                    Intent::Write => s.protect.write,
                    Intent::Execute => s.protect.execute,
                };
                if !allowed {
                    return Err(
                        match intent {
                            Intent::Read => MemError::CannotRead { addr },
                            Intent::Write => MemError::CannotWrite { addr },
                            Intent::Execute => MemError::CannotExecute { addr },
                        },
                    );
                }
                if s.hi - addr < n {
                    return Err(MemError::NoMemory { addr: s.hi });
                }
                return Ok(k);
            }
            k += 1;
        }
        proof {
            assert(!self.has_section(addr));
        }
        Err(MemError::NoMemory { addr })
    }
}

/// A copy of `data` extended with zeros to exactly `len` bytes.
fn padded_copy(data: &[u8], len: usize) -> (r: Vec<u8>)
    requires
        data@.len() <= len,
    ensures
        r@ == Seq::new(len as nat, |j: int| if j < data@.len() { data@[j] } else { 0u8 }),
{
    let n = data.len();
    let mut bytes: Vec<u8> = Vec::new();
    let mut k: usize = 0;
    while k < n
        invariant
            0 <= k <= n,
            n == data@.len() <= len,
            bytes@.len() == k,
            forall|j: int| 0 <= j < k ==> bytes@[j] == data@[j],
        decreases n - k,
    {
        bytes.push(*vstd::slice::slice_index_get(data, k));
        k += 1;
    }
    while bytes.len() < len
        invariant
            n == data@.len() <= len,
            n <= bytes@.len() <= len,
            forall|j: int| 0 <= j < n ==> bytes@[j] == data@[j],
            forall|j: int| n <= j < bytes@.len() ==> bytes@[j] == 0u8,
        decreases len - bytes.len(),
    {
        bytes.push(0u8);
    }
    proof {
        assert(bytes@ =~= Seq::new(
            len as nat,
            |j: int| if j < data@.len() { data@[j] } else { 0u8 },
        ));
    }
    bytes
}


impl Physical {
    /// Read the unsigned value of the `n` bytes at `addr`, assembled in
    /// the owning section's byte order.
    fn read_uint(&self, addr: u64, n: u64, intent: Intent) -> (r: Result<u64, MemError>)
        requires
            self.wf(),
            1 <= n <= 8,
        ensures
            match self.spec_read_uint(addr, n as nat, intent) {
                Ok(v) => r == Ok::<u64, MemError>(v as u64) && v < pow2(8 * n as nat),
                Err(e) => r == Err::<u64, MemError>(e),
            },
    {
        let i = match self.locate(addr, n, intent) {
            Ok(i) => i,
            Err(e) => {
                return Err(e);
            },
        };
        let s = &self.sections[i];
        proof {
            assert(self.sections()[i as int] == s@);
            assert(self.has_section(addr));
            let i0 = self.section_index(addr);
            assert(self.sections()[i0].has_addr(addr));
            assert(i0 == i as int);
            assert(s@.wf());
            assert(addr + n <= s.hi);
            assert(addr - s.lo < s.bytes@.len());
        }
        let blen = s.bytes.len();
        let off = (addr - s.lo) as usize;
        let ghost w = s@.bytes.subrange(addr - s.lo, addr - s.lo + n);
        let mut acc: u64 = 0;
        let mut k: u64 = 0;
        match s.endian {
            Endian::Little => {
                while k < n
                    invariant
                        0 <= k <= n <= 8,
                        w.len() == n,
                        off == addr - s.lo,
                        off + n <= s.bytes@.len() <= usize::MAX,
                        forall|j: int| 0 <= j < n ==> w[j] == s.bytes@[off + j],
                        acc == le_val(w.take(k as int)),
                    decreases n - k,
                {
                    let b = s.bytes[off + k as usize];
                    proof {
                        lemma_le_val_bound(w.take(k as int));
                        let p = pow2((8 * k) as nat);
                        if k < 7 {
                            vstd::arithmetic::power2::lemma_pow2_strictly_increases(
                                (8 * k) as nat,
                                56,
                            );
                        }
                        vstd::arithmetic::power2::lemma2_to64_rest();
                        assert(acc + b * p <= u64::MAX) by (nonlinear_arith)
                            requires
                                acc < p,
                                b < 256,
                                p <= 0x100000000000000,
                        ;
                        vstd::bits::lemma_u64_shl_is_mul(b as u64, (8 * k) as u64);
                        assert(w.take(k as int + 1).drop_last() =~= w.take(k as int));
                        assert(w.take(k as int + 1).last() == w[k as int]);
                    }
                    acc = acc + ((b as u64) << (8 * k));
                    k = k + 1;
                }
                proof {
                    assert(w.take(n as int) =~= w);
                    lemma_le_val_bound(w);
                }
                Ok(acc)
            },
            Endian::Big => {
                while k < n
                    invariant
                        0 <= k <= n <= 8,
                        w.len() == n,
                        off == addr - s.lo,
                        off + n <= s.bytes@.len() <= usize::MAX,
                        forall|j: int| 0 <= j < n ==> w[j] == s.bytes@[off + j],
                        acc == be_val(w.take(k as int)),
                    decreases n - k,
                {
                    let b = s.bytes[off + k as usize];
                    proof {
                        lemma_be_val_bound(w.take(k as int));
                        let p = pow2((8 * k) as nat);
                        if k < 7 {
                            vstd::arithmetic::power2::lemma_pow2_strictly_increases(
                                (8 * k) as nat,
                                56,
                            );
                        }
                        vstd::arithmetic::power2::lemma2_to64_rest();
                        assert(acc * 256 + b <= u64::MAX) by (nonlinear_arith)
                            requires
                                acc < p,
                                b < 256,
                                p <= 0x100000000000000,
                        ;
                        assert(w.take(k as int + 1).drop_last() =~= w.take(k as int));
                        assert(w.take(k as int + 1).last() == w[k as int]);
                    }
                    acc = acc * 256 + (b as u64);
                    k = k + 1;
                }
                proof {
                    assert(w.take(n as int) =~= w);
                    lemma_be_val_bound(w);
                }
                Ok(acc)
            },
        }
    }

    /// Read one byte at `addr`.
    pub fn read_u8(&self, addr: u64) -> (r: Result<u8, MemError>)
        requires
            self.wf(),
        ensures
            match self.spec_read_uint(addr, 1, Intent::Read) {
                Ok(v) => r == Ok::<u8, MemError>(v as u8) && v < 0x100,
                Err(e) => r == Err::<u8, MemError>(e),
            },
    {
        proof {
            lemma2_to64();
        }
        match self.read_uint(addr, 1, Intent::Read) {
            Ok(v) => Ok(v as u8),
            Err(e) => Err(e),
        }
    }

    /// Read one byte at `addr`, as a signed value.
    pub fn read_i8(&self, addr: u64) -> (r: Result<i8, MemError>)
        requires
            self.wf(),
        ensures
            match self.spec_read_uint(addr, 1, Intent::Read) {
                Ok(v) => r == Ok::<i8, MemError>(v as u8 as i8),
                Err(e) => r == Err::<i8, MemError>(e),
            },
    {
        proof {
            lemma2_to64();
        }
        match self.read_uint(addr, 1, Intent::Read) {
            Ok(v) => Ok(v as u8 as i8),
            Err(e) => Err(e),
        }
    }

    /// Read the two bytes at `addr` in the section's byte order.
    pub fn read_u16(&self, addr: u64) -> (r: Result<u16, MemError>)
        requires
            self.wf(),
        ensures
            match self.spec_read_uint(addr, 2, Intent::Read) {
                Ok(v) => r == Ok::<u16, MemError>(v as u16) && v < 0x10000,
                Err(e) => r == Err::<u16, MemError>(e),
            },
    {
        proof {
            lemma2_to64();
        }
        match self.read_uint(addr, 2, Intent::Read) {
            Ok(v) => Ok(v as u16),
            Err(e) => Err(e),
        }
    }

    /// Read the two bytes at `addr`, as a signed value.
    pub fn read_i16(&self, addr: u64) -> (r: Result<i16, MemError>)
        requires
            self.wf(),
        ensures
            match self.spec_read_uint(addr, 2, Intent::Read) {
                Ok(v) => r == Ok::<i16, MemError>(v as u16 as i16),
                Err(e) => r == Err::<i16, MemError>(e),
            },
    {
        proof {
            lemma2_to64();
        }
        match self.read_uint(addr, 2, Intent::Read) {
            Ok(v) => Ok(v as u16 as i16),
            Err(e) => Err(e),
        }
    }

    /// Read the four bytes at `addr` in the section's byte order.
    pub fn read_u32(&self, addr: u64) -> (r: Result<u32, MemError>)
        requires
            self.wf(),
        ensures
            match self.spec_read_uint(addr, 4, Intent::Read) {
                Ok(v) => r == Ok::<u32, MemError>(v as u32) && v < 0x1_0000_0000,
                Err(e) => r == Err::<u32, MemError>(e),
            },
    {
        proof {
            lemma2_to64();
            vstd::arithmetic::power2::lemma2_to64_rest();
        }
        match self.read_uint(addr, 4, Intent::Read) {
            Ok(v) => Ok(v as u32),
            Err(e) => Err(e),
        }
    }

    /// Read the four bytes at `addr`, as a signed value.
    pub fn read_i32(&self, addr: u64) -> (r: Result<i32, MemError>)
        requires
            self.wf(),
        ensures
            match self.spec_read_uint(addr, 4, Intent::Read) {
                Ok(v) => r == Ok::<i32, MemError>(v as u32 as i32),
                Err(e) => r == Err::<i32, MemError>(e),
            },
    {
        proof {
            lemma2_to64();
            vstd::arithmetic::power2::lemma2_to64_rest();
        }
        match self.read_uint(addr, 4, Intent::Read) {
            Ok(v) => Ok(v as u32 as i32),
            Err(e) => Err(e),
        }
    }

    /// Read the eight bytes at `addr` in the section's byte order.
    pub fn read_u64(&self, addr: u64) -> (r: Result<u64, MemError>)
        requires
            self.wf(),
        ensures
            match self.spec_read_uint(addr, 8, Intent::Read) {
                Ok(v) => r == Ok::<u64, MemError>(v as u64) && v < 0x1_0000_0000_0000_0000,
                Err(e) => r == Err::<u64, MemError>(e),
            },
    {
        proof {
            vstd::arithmetic::power2::lemma2_to64_rest();
        }
        self.read_uint(addr, 8, Intent::Read)
    }

    /// Read the eight bytes at `addr`, as a signed value.
    pub fn read_i64(&self, addr: u64) -> (r: Result<i64, MemError>)
        requires
            self.wf(),
        ensures
            match self.spec_read_uint(addr, 8, Intent::Read) {
                Ok(v) => r == Ok::<i64, MemError>(v as u64 as i64),
                Err(e) => r == Err::<i64, MemError>(e),
            },
    {
        match self.read_uint(addr, 8, Intent::Read) {
            Ok(v) => Ok(v as i64),
            Err(e) => Err(e),
        }
    }

    /// Read the two bytes at `addr` under execute intent: the sole
    /// accessor instruction fetch uses.
    pub fn fetch_ins_u16(&self, addr: u64) -> (r: Result<u16, MemError>)
        requires
            self.wf(),
        ensures
            match self.spec_read_uint(addr, 2, Intent::Execute) {
                Ok(v) => r == Ok::<u16, MemError>(v as u16) && v < 0x10000,
                Err(e) => r == Err::<u16, MemError>(e),
            },
    {
        proof {
            lemma2_to64();
        }
        match self.read_uint(addr, 2, Intent::Execute) {
            Ok(v) => Ok(v as u16),
            Err(e) => Err(e),
        }
    }
}


pub proof fn lemma_le_bytes_len(v: nat, n: nat)
    ensures
        le_bytes(v, n).len() == n,
    decreases n,
{
    if n > 0 {
        lemma_le_bytes_len(v / 256, (n - 1) as nat);
    }
}

pub proof fn lemma_le_bytes_index(v: nat, n: nat, i: int)
    requires
        0 <= i < n,
    ensures
        le_bytes(v, n).len() == n,
        le_bytes(v, n)[i] == ((v / pow2((8 * i) as nat)) % 256) as u8,
    decreases n,
{
    lemma_le_bytes_len(v, n);
    if i == 0 {
        lemma2_to64();
        assert(le_bytes(v, n)[0] == (v % 256) as u8);
        assert(v / pow2(0) == v);
    } else {
        lemma_le_bytes_index(v / 256, (n - 1) as nat, i - 1);
        assert(le_bytes(v, n)[i] == le_bytes(v / 256, (n - 1) as nat)[i - 1]);
        lemma_pow2_adds(8, (8 * i - 8) as nat);
        vstd::arithmetic::power2::lemma_pow2_pos((8 * i - 8) as nat);
        lemma2_to64();
        let p = pow2((8 * i - 8) as nat);
        let q = pow2((8 * i) as nat);
        assert(q == 256 * p);
        vstd::arithmetic::div_mod::lemma_div_denominator(v as int, 256, p as int);
        assert(((v as int) / 256) / (p as int) == (v as int) / (256 * p as int));
        assert((v / 256) / p == v / q);
    }
}

impl Physical {
    /// Store the low `n` bytes of `val` at `addr`, in the owning section's
    /// byte order.
    fn write_uint(&mut self, addr: u64, val: u64, n: u64) -> (r: Result<(), MemError>)
        requires
            old(self).wf(),
            1 <= n <= 8,
        ensures
            match old(self).spec_write_uint(addr, val, n as nat) {
                Ok(ss) => r == Ok::<(), MemError>(()) && final(self).sections() == ss && final(self).wf(),
                Err(e) => r == Err::<(), MemError>(e) && final(self).sections() == old(self).sections(),
            },
    {
        let ghost old_model = self.sections();
        let i = match self.locate(addr, n, Intent::Write) {
            Ok(i) => i,
            Err(e) => {
                return Err(e);
            },
        };
        let ghost s0 = self.sections()[i as int];
        proof {
            assert(self.has_section(addr));
            let i0 = self.section_index(addr);
            assert(self.sections()[i0].has_addr(addr));
            assert(i0 == i as int);
            assert(s0.wf());
            assert(addr + n <= s0.hi);
        }
        let ghost w = match s0.endian {
            Endian::Little => le_bytes(val as nat, n as nat),
            Endian::Big => be_bytes(val as nat, n as nat),
        };
        proof {
            lemma_le_bytes_len(val as nat, n as nat);
            assert(w.len() == n);
        }
        let mut s = self.sections.remove(i);
        proof {
            assert(s@ == s0);
        }
        let ghost b0 = s0.bytes;
        let blen = s.bytes.len();
        let off = (addr - s.lo) as usize;
        let mut k: u64 = 0;
        while k < n
            invariant
                0 <= k <= n <= 8,
                w.len() == n,
                w == (match s0.endian {
                    Endian::Little => le_bytes(val as nat, n as nat),
                    Endian::Big => be_bytes(val as nat, n as nat),
                }),
                s.lo == s0.lo,
                s.hi == s0.hi,
                s.protect == s0.protect,
                s.endian == s0.endian,
                off == addr - s0.lo,
                off + n <= s.bytes@.len() <= usize::MAX,
                s.bytes@.len() == b0.len(),
                forall|j: int| 0 <= j < k ==> s.bytes@[off + j] == w[j],
                forall|j: int|
                    0 <= j < s.bytes@.len() && !(off <= j < off + k) ==> s.bytes@[j] == b0[j],
            decreases n - k,
        {
            let sh: u64 = match s.endian {
                Endian::Little => 8 * k,
                Endian::Big => 8 * (n - 1 - k),
            };
            let b: u8 = ((val >> sh) % 256) as u8;
            proof {
                vstd::bits::lemma_u64_shr_is_div(val, sh);
                match s0.endian {
                    Endian::Little => {
                        lemma_le_bytes_index(val as nat, n as nat, k as int);
                    },
                    Endian::Big => {
                        lemma_le_bytes_index(val as nat, n as nat, n - 1 - k as int);
                        assert(w[k as int] == le_bytes(val as nat, n as nat)[n - 1 - k as int]);
                    },
                }
                assert(b == w[k as int]);
            }
            s.bytes.set(off + k as usize, b);
            k = k + 1;
        }
        let ghost nb = Seq::new(
            b0.len(),
            |j: int| if off <= j < off + n { w[j - off] } else { b0[j] },
        );
        proof {
            assert(s.bytes@ =~= nb);
        }
        self.sections.insert(i, s);
        proof {
            let sm = SectionModel {
                lo: s0.lo,
                hi: s0.hi,
                protect: s0.protect,
                endian: s0.endian,
                bytes: nb,
            };
            assert(self.sections() =~= old_model.update(i as int, sm));
            assert(old(self).spec_write_uint(addr, val, n as nat) == Ok::<_, MemError>(
                old_model.update(i as int, sm),
            ));
            assert forall|a: int, b2: int|
                0 <= a < b2 < self.sections().len() implies #[trigger] self.sections()[a].disjoint(
                self.sections()[b2],
            ) by {
                assert(old_model[a].disjoint(old_model[b2]));
            }
            assert forall|a: int|
                0 <= a < self.sections().len() implies (#[trigger] self.sections()[a]).wf() by {
                assert(old_model[a].wf());
            }
        }
        Ok(())
    }

    /// Store one byte at `addr`.
    pub fn write_u8(&mut self, addr: u64, val: u8) -> (r: Result<(), MemError>)
        requires
            old(self).wf(),
        ensures
            match old(self).spec_write_uint(addr, val as u64, 1) {
                Ok(ss) => r == Ok::<(), MemError>(()) && final(self).sections() == ss && final(self).wf(),
                Err(e) => r == Err::<(), MemError>(e) && final(self).sections() == old(self).sections(),
            },
    {
        self.write_uint(addr, val as u64, 1)
    }

    /// Store the low two bytes of `val` at `addr`, in the section's byte
    /// order.
    pub fn write_u16(&mut self, addr: u64, val: u16) -> (r: Result<(), MemError>)
        requires
            old(self).wf(),
        ensures
            match old(self).spec_write_uint(addr, val as u64, 2) {
                Ok(ss) => r == Ok::<(), MemError>(()) && final(self).sections() == ss && final(self).wf(),
                Err(e) => r == Err::<(), MemError>(e) && final(self).sections() == old(self).sections(),
            },
    {
        self.write_uint(addr, val as u64, 2)
    }

    /// Store the low four bytes of `val` at `addr`, in the section's byte
    /// order.
    pub fn write_u32(&mut self, addr: u64, val: u32) -> (r: Result<(), MemError>)
        requires
            old(self).wf(),
        ensures
            match old(self).spec_write_uint(addr, val as u64, 4) {
                Ok(ss) => r == Ok::<(), MemError>(()) && final(self).sections() == ss && final(self).wf(),
                Err(e) => r == Err::<(), MemError>(e) && final(self).sections() == old(self).sections(),
            },
    {
        self.write_uint(addr, val as u64, 4)
    }

    /// Store the eight bytes of `val` at `addr`, in the section's byte
    /// order.
    pub fn write_u64(&mut self, addr: u64, val: u64) -> (r: Result<(), MemError>)
        requires
            old(self).wf(),
        ensures
            match old(self).spec_write_uint(addr, val, 8) {
                Ok(ss) => r == Ok::<(), MemError>(()) && final(self).sections() == ss && final(self).wf(),
                Err(e) => r == Err::<(), MemError>(e) && final(self).sections() == old(self).sections(),
            },
    {
        self.write_uint(addr, val, 8)
    }
}


impl Physical {
    /// Law: in a well-formed memory, the ranges of any two distinct
    /// sections intersect in no address.
    pub proof fn lemma_sections_disjoint(self, i: int, j: int)
        requires
            self.wf(),
            0 <= i < self.sections().len(),
            0 <= j < self.sections().len(),
            i != j,
        ensures
            forall|a: u64|
                !((#[trigger] self.sections()[i].has_addr(a)) && self.sections()[j].has_addr(a)),
    {
        assert forall|a: u64|
            !((#[trigger] self.sections()[i].has_addr(a)) && self.sections()[j].has_addr(a)) by {
            if self.sections()[i].has_addr(a) && self.sections()[j].has_addr(a) {
                self.lemma_section_unique(a, i, j);
            }
        }
    }

    /// Law: an access at `a` with intent `t` succeeds exactly when `a`
    /// lies in a section whose protection includes `t` and the whole
    /// access window lies inside that section; each failing case yields
    /// the fault the taxonomy names.
    pub proof fn lemma_access_characterization(self, a: u64, n: nat, t: Intent)
        requires
            self.wf(),
        ensures
            (self.spec_locate(a, n, t) is Ok) <==> (exists|i: int|
                0 <= i < self.sections().len() && (#[trigger] self.sections()[i]).has_addr(a)
                    && self.sections()[i].protect.spec_allows(t) && a + n
                    <= self.sections()[i].hi),
            !self.has_section(a) ==> self.spec_locate(a, n, t) == Err::<int, MemError>(
                MemError::NoMemory { addr: a },
            ),
            forall|i: int|
                0 <= i < self.sections().len() && (#[trigger] self.sections()[i]).has_addr(a)
                    && !self.sections()[i].protect.spec_allows(t) ==> self.spec_locate(a, n, t)
                    == Err::<int, MemError>(t.spec_fault(a)),
            forall|i: int|
                0 <= i < self.sections().len() && (#[trigger] self.sections()[i]).has_addr(a)
                    && self.sections()[i].protect.spec_allows(t) && a + n > self.sections()[i].hi
                    ==> self.spec_locate(a, n, t) == Err::<int, MemError>(
                    MemError::NoMemory { addr: self.sections()[i].hi },
                ),
            forall|i: int|
                0 <= i < self.sections().len() && (#[trigger] self.sections()[i]).has_addr(a)
                    && self.sections()[i].protect.spec_allows(t) && a + n <= self.sections()[i].hi
                    ==> self.spec_locate(a, n, t) == Ok::<int, MemError>(i),
    {
        if self.has_section(a) {
            let i0 = self.section_index(a);
            assert(self.sections()[i0].has_addr(a));
            assert forall|i: int|
                0 <= i < self.sections().len() && (#[trigger] self.sections()[i]).has_addr(
                    a,
                ) implies i == i0 by {
                self.lemma_section_unique(a, i, i0);
            }
        }
    }

    /// Law: what a read returns is a function of the memory model alone,
    /// so two reads of the same address with no intervening write return
    /// equal values.
    pub proof fn lemma_read_idempotent(m1: Physical, m2: Physical, a: u64, n: nat, t: Intent)
        requires
            m1.sections() == m2.sections(),
        ensures
            m1.spec_read_uint(a, n, t) == m2.spec_read_uint(a, n, t),
    {
        assert(m1.has_section(a) == m2.has_section(a));
        if m1.has_section(a) {
            let i1 = m1.section_index(a);
            let i2 = m2.section_index(a);
            assert(m1.sections()[i1].has_addr(a));
            assert(m2.sections()[i2].has_addr(a));
        }
    }
}

} // verus!
