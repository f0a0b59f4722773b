//! Typed, fail-closed reads from an image of a remote address space.

use vstd::prelude::*;

verus! {

/// One mapped range of the remote address space, starting at `base`.
pub struct Region {
    pub base: u64,
    pub bytes: Vec<u8>,
}

/// The readable part of a remote process: a list of mapped regions.
/// A read is served by the first region that holds all of its bytes.
pub struct RemoteMemory {
    pub regions: Vec<Region>,
}

/// The model of a memory image: each region as its base and its bytes.
pub type MemView = Seq<(u64, Seq<u8>)>;

impl View for RemoteMemory {
    type V = MemView;

    open spec fn view(&self) -> MemView {
        self.regions@.map_values(|r: Region| (r.base, r.bytes@))
    }
}

/// Whether `region` holds every byte of `[addr, addr + len)`.
pub open spec fn covers(region: (u64, Seq<u8>), addr: int, len: int) -> bool {
    region.0 <= addr && addr + len <= region.0 + region.1.len()
}

/// The bytes that the first region from index `i` on that covers the range holds.
pub open spec fn bytes_from(m: MemView, i: int, addr: int, len: int) -> Option<Seq<u8>>
    decreases m.len() - i,
{
    if i < 0 || i >= m.len() {
        None
    } else if covers(m[i], addr, len) {
        Some(m[i].1.subrange(addr - m[i].0, addr - m[i].0 + len))
    } else {
        bytes_from(m, i + 1, addr, len)
    }
}

/// What a read of `len` bytes at `addr` yields: nothing at the null address,
/// nothing where no region covers the whole range.
pub open spec fn read_spec(m: MemView, addr: u64, len: nat) -> Option<Seq<u8>> {
    if addr == 0 {
        None
    } else {
        bytes_from(m, 0, addr as int, len as int)
    }
}

/// A read that succeeds yields exactly the bytes asked for.
pub proof fn lemma_read_len(m: MemView, addr: u64, len: nat)
    ensures
        read_spec(m, addr, len) matches Some(b) ==> b.len() == len,
{
    if addr != 0 {
        lemma_bytes_from_len(m, 0, addr as int, len as int);
    }
}

proof fn lemma_bytes_from_len(m: MemView, i: int, addr: int, len: int)
    requires
        len >= 0,
    ensures
        bytes_from(m, i, addr, len) matches Some(b) ==> b.len() == len,
    decreases m.len() - i,
{
    if 0 <= i < m.len() && !covers(m[i], addr, len) {
        lemma_bytes_from_len(m, i + 1, addr, len);
    }
}

/// Little-endian value of four bytes.
pub open spec fn le_u32(b: Seq<u8>) -> u32 {
    (b[0] as int + b[1] as int * 0x100 + b[2] as int * 0x1_0000 + b[3] as int * 0x100_0000) as u32
}

/// Little-endian value of eight bytes.
pub open spec fn le_u64(b: Seq<u8>) -> u64 {
    (le_u32(b.subrange(0, 4)) as int + le_u32(b.subrange(4, 8)) as int * 0x1_0000_0000) as u64
}

/// A pointer-sized value read at `addr`.
pub open spec fn read_u64_spec(m: MemView, addr: u64) -> Option<u64> {
    match read_spec(m, addr, 8) {
        Some(b) => Some(le_u64(b)),
        None => None,
    }
}

pub open spec fn read_u32_spec(m: MemView, addr: u64) -> Option<u32> {
    match read_spec(m, addr, 4) {
        Some(b) => Some(le_u32(b)),
        None => None,
    }
}

pub open spec fn read_i32_spec(m: MemView, addr: u64) -> Option<i32> {
    match read_u32_spec(m, addr) {
        Some(v) => Some(v as i32),
        None => None,
    }
}

/// A one-byte flag: any non-zero byte reads as `true`.
pub open spec fn read_bool_spec(m: MemView, addr: u64) -> Option<bool> {
    match read_spec(m, addr, 1) {
        Some(b) => Some(b[0] != 0),
        None => None,
    }
}

/// The address `offset` bytes past `base`: absent for a null base, and where
/// the sum leaves the address space.
pub open spec fn offset_address(base: u64, offset: u64) -> Option<u64> {
    if base == 0 || base as int + offset as int > u64::MAX as int {
        None
    } else {
        Some((base + offset) as u64)
    }
}

pub open spec fn read_offset_u64_spec(m: MemView, base: u64, offset: u64) -> Option<u64> {
    match offset_address(base, offset) {
        Some(a) => read_u64_spec(m, a),
        None => None,
    }
}

pub open spec fn read_offset_u32_spec(m: MemView, base: u64, offset: u64) -> Option<u32> {
    match offset_address(base, offset) {
        Some(a) => read_u32_spec(m, a),
        None => None,
    }
}

pub open spec fn read_offset_i32_spec(m: MemView, base: u64, offset: u64) -> Option<i32> {
    match offset_address(base, offset) {
        Some(a) => read_i32_spec(m, a),
        None => None,
    }
}

fn le_u32_at(b: &Vec<u8>, i: usize) -> (r: u32)
    requires
        i + 4 <= b@.len(),
    ensures
        r == le_u32(b@.subrange(i as int, i + 4)),
{
    let _n = b.len();
    let b0 = b[i] as u32;
    let b1 = b[i + 1] as u32;
    let b2 = b[i + 2] as u32;
    let b3 = b[i + 3] as u32;
    assert(b0 <= 0xff && b1 <= 0xff && b2 <= 0xff && b3 <= 0xff);
    b0 + b1 * 0x100 + b2 * 0x1_0000 + b3 * 0x100_0000
}

fn le_u64_at(b: &Vec<u8>, i: usize) -> (r: u64)
    requires
        i + 8 <= b@.len(),
    ensures
        r == le_u64(b@.subrange(i as int, i + 8)),
{
    let _n = b.len();
    let lo = le_u32_at(b, i);
    assert(lo <= 0xffff_ffff);
    let hi = le_u32_at(b, i + 4);
    proof {
        let s = b@.subrange(i as int, i + 8);
        assert(s.subrange(0, 4) =~= b@.subrange(i as int, i + 4));
        assert(s.subrange(4, 8) =~= b@.subrange(i + 4, i + 8));
    }
    lo as u64 + hi as u64 * 0x1_0000_0000
}

impl RemoteMemory {
    /// An image with nothing mapped.
    pub fn new() -> (r: RemoteMemory)
        ensures
            r@ == Seq::<(u64, Seq<u8>)>::empty(),
    {
        RemoteMemory { regions: Vec::new() }
    }

    /// Maps `bytes` at `base`, behind the regions mapped before.
    pub fn map_region(&mut self, base: u64, bytes: Vec<u8>)
        ensures
            final(self)@ == old(self)@.push((base, bytes@)),
    {
        self.regions.push(Region { base, bytes });
        proof {
            assert(final(self)@ =~= old(self)@.push((base, bytes@)));
        }
    }

    /// Reads `size` bytes at `address`. Fails at the null address and where no
    /// single region holds the whole range.
    pub fn read(&self, address: u64, size: usize) -> (r: Option<Vec<u8>>)
        ensures
            match r {
                Some(v) => read_spec(self@, address, size as nat) == Some(v@),
                None => read_spec(self@, address, size as nat) is None,
            },
    {
        if address == 0 {
            return None;
        }
        let mut i: usize = 0;
        while i < self.regions.len()
            invariant
                i <= self.regions@.len(),
                address != 0,
                bytes_from(self@, 0, address as int, size as int) == bytes_from(
                    self@,
                    i as int,
                    address as int,
                    size as int,
                ),
            decreases self.regions@.len() - i,
        {
            let region = &self.regions[i];
            let n = region.bytes.len();
            if address >= region.base && address - region.base <= n as u64 && size as u64 <= n as u64
                - (address - region.base) {
                let off = (address - region.base) as usize;
                let mut out: Vec<u8> = Vec::new();
                let mut k: usize = 0;
                while k < size
                    invariant
                        off + size <= region.bytes@.len(),
                        region.bytes@.len() <= usize::MAX,
                        k <= size,
                        out@ == region.bytes@.subrange(off as int, off + k),
                    decreases size - k,
                {
                    out.push(region.bytes[off + k]);
                    k = k + 1;
                    proof {
                        assert(out@ =~= region.bytes@.subrange(off as int, off + k));
                    }
                }
                return Some(out);
            }
            i = i + 1;
        }
        None
    }

    /// Reads a pointer-sized value at `address`.
    pub fn read_u64(&self, address: u64) -> (r: Option<u64>)
        ensures
            r == read_u64_spec(self@, address),
    {
        proof {
            lemma_read_len(self@, address, 8);
        }
        match self.read(address, 8) {
            Some(b) => {
                proof {
                    assert(b@.subrange(0, 8) =~= b@);
                }
                Some(le_u64_at(&b, 0))
            },
            None => None,
        }
    }

    pub fn read_u32(&self, address: u64) -> (r: Option<u32>)
        ensures
            r == read_u32_spec(self@, address),
    {
        proof {
            lemma_read_len(self@, address, 4);
        }
        match self.read(address, 4) {
            Some(b) => {
                proof {
                    assert(b@.subrange(0, 4) =~= b@);
                }
                Some(le_u32_at(&b, 0))
            },
            None => None,
        }
    }

    pub fn read_i32(&self, address: u64) -> (r: Option<i32>)
        ensures
            r == read_i32_spec(self@, address),
    {
        match self.read_u32(address) {
            Some(v) => Some(v as i32),
            None => None,
        }
    }

    pub fn read_bool(&self, address: u64) -> (r: Option<bool>)
        ensures
            r == read_bool_spec(self@, address),
    {
        proof {
            lemma_read_len(self@, address, 1);
        }
        match self.read(address, 1) {
            Some(b) => Some(b[0] != 0),
            None => None,
        }
    }
}

/// `base + offset`, or nothing for a null base or a sum past the address space.
pub fn offset_of(base: u64, offset: u64) -> (r: Option<u64>)
    ensures
        r == offset_address(base, offset),
{
    if base == 0 || offset > u64::MAX - base {
        None
    } else {
        Some(base + offset)
    }
}

impl RemoteMemory {
    /// Reads a pointer-sized value `offset` bytes past `base`; a null base
    /// fails before any read.
    pub fn read_offset_u64(&self, base: u64, offset: u64) -> (r: Option<u64>)
        ensures
            r == read_offset_u64_spec(self@, base, offset),
            base == 0 ==> r is None,
    {
        match offset_of(base, offset) {
            Some(a) => self.read_u64(a),
            None => None,
        }
    }

    pub fn read_offset_u32(&self, base: u64, offset: u64) -> (r: Option<u32>)
        ensures
            r == read_offset_u32_spec(self@, base, offset),
            base == 0 ==> r is None,
    {
        match offset_of(base, offset) {
            Some(a) => self.read_u32(a),
            None => None,
        }
    }

    pub fn read_offset_i32(&self, base: u64, offset: u64) -> (r: Option<i32>)
        ensures
            r == read_offset_i32_spec(self@, base, offset),
            base == 0 ==> r is None,
    {
        match offset_of(base, offset) {
            Some(a) => self.read_i32(a),
            None => None,
        }
    }
}

/// Raw IEEE-754 single-precision bit patterns of a two-component vector.
#[derive(Clone, Copy, PartialEq, Eq, Structural, Debug)]
pub struct Vec2Bits {
    pub x: u32,
    pub y: u32,
}

/// Raw IEEE-754 single-precision bit patterns of a three-component vector.
#[derive(Clone, Copy, PartialEq, Eq, Structural, Debug)]
pub struct Vec3Bits {
    pub x: u32,
    pub y: u32,
    pub z: u32,
}

/// A growable array header of the remote process: element count, then data address.
#[derive(Clone, Copy, PartialEq, Eq, Structural, Debug)]
pub struct CUtlVector {
    pub count: u64,
    pub data: u64,
}

impl Default for CUtlVector {
    fn default() -> (r: Self)
        ensures
            r.count == 0 && r.data == 0,
    {
        CUtlVector { count: 0, data: 0 }
    }
}

pub open spec fn read_offset_bytes_spec(m: MemView, base: u64, offset: u64, len: nat) -> Option<Seq<u8>> {
    match offset_address(base, offset) {
        Some(a) => read_spec(m, a, len),
        None => None,
    }
}

pub open spec fn read_offset_vec2_spec(m: MemView, base: u64, offset: u64) -> Option<Vec2Bits> {
    match read_offset_bytes_spec(m, base, offset, 8) {
        Some(b) => Some(Vec2Bits { x: le_u32(b.subrange(0, 4)), y: le_u32(b.subrange(4, 8)) }),
        None => None,
    }
}

pub open spec fn read_offset_vec3_spec(m: MemView, base: u64, offset: u64) -> Option<Vec3Bits> {
    match read_offset_bytes_spec(m, base, offset, 12) {
        Some(b) => Some(
            Vec3Bits {
                x: le_u32(b.subrange(0, 4)),
                y: le_u32(b.subrange(4, 8)),
                z: le_u32(b.subrange(8, 12)),
            },
        ),
        None => None,
    }
}

pub open spec fn read_offset_utl_vector_spec(m: MemView, base: u64, offset: u64) -> Option<
    CUtlVector,
> {
    match read_offset_bytes_spec(m, base, offset, 16) {
        Some(b) => Some(
            CUtlVector { count: le_u64(b.subrange(0, 8)), data: le_u64(b.subrange(8, 16)) },
        ),
        None => None,
    }
}

/// The address that a pointer chain reaches from `current`, taking the
/// offsets from index `i` on. Each offset but a terminal zero is one hop: read a
/// pointer at `current + offset` and go on from it. A terminal zero stops at
/// the value loaded last. Any failed hop gives the null address.
pub open spec fn trace_from(m: MemView, current: u64, offsets: Seq<u64>, i: int) -> u64
    decreases offsets.len() - i,
{
    if i < 0 || i >= offsets.len() {
        current
    } else if i == offsets.len() - 1 && offsets[i] == 0 {
        current
    } else {
        match read_offset_u64_spec(m, current, offsets[i]) {
            Some(p) => trace_from(m, p, offsets, i + 1),
            None => 0,
        }
    }
}

pub open spec fn trace_spec(m: MemView, base: u64, offsets: Seq<u64>) -> u64 {
    trace_from(m, base, offsets, 0)
}

impl RemoteMemory {
    /// Reads `size` bytes `offset` bytes past `base`; a null base fails before any read.
    pub fn read_offset(&self, base: u64, offset: u64, size: usize) -> (r: Option<Vec<u8>>)
        ensures
            match r {
                Some(v) => read_offset_bytes_spec(self@, base, offset, size as nat) == Some(v@),
                None => read_offset_bytes_spec(self@, base, offset, size as nat) is None,
            },
            base == 0 ==> r is None,
    {
        match offset_of(base, offset) {
            Some(a) => self.read(a, size),
            None => None,
        }
    }

    pub fn read_offset_vec2(&self, base: u64, offset: u64) -> (r: Option<Vec2Bits>)
        ensures
            r == read_offset_vec2_spec(self@, base, offset),
            base == 0 ==> r is None,
    {
        proof {
            if let Some(a) = offset_address(base, offset) {
                lemma_read_len(self@, a, 8);
            }
        }
        match self.read_offset(base, offset, 8) {
            Some(b) => Some(Vec2Bits { x: le_u32_at(&b, 0), y: le_u32_at(&b, 4) }),
            None => None,
        }
    }

    pub fn read_offset_vec3(&self, base: u64, offset: u64) -> (r: Option<Vec3Bits>)
        ensures
            r == read_offset_vec3_spec(self@, base, offset),
            base == 0 ==> r is None,
    {
        proof {
            if let Some(a) = offset_address(base, offset) {
                lemma_read_len(self@, a, 12);
            }
        }
        match self.read_offset(base, offset, 12) {
            Some(b) => Some(
                Vec3Bits { x: le_u32_at(&b, 0), y: le_u32_at(&b, 4), z: le_u32_at(&b, 8) },
            ),
            None => None,
        }
    }

    pub fn read_offset_utl_vector(&self, base: u64, offset: u64) -> (r: Option<CUtlVector>)
        ensures
            r == read_offset_utl_vector_spec(self@, base, offset),
            base == 0 ==> r is None,
    {
        proof {
            if let Some(a) = offset_address(base, offset) {
                lemma_read_len(self@, a, 16);
            }
        }
        match self.read_offset(base, offset, 16) {
            Some(b) => Some(CUtlVector { count: le_u64_at(&b, 0), data: le_u64_at(&b, 8) }),
            None => None,
        }
    }

    /// Follows a pointer chain from `base` (see `trace_from`); the null address
    /// stands for a broken chain.
    pub fn trace(&self, base: u64, offsets: &[u64]) -> (r: u64)
        ensures
            r == trace_spec(self@, base, offsets@),
    {
        let mut current = base;
        let mut i: usize = 0;
        while i < offsets.len()
            invariant
                i <= offsets@.len(),
                trace_spec(self@, base, offsets@) == trace_from(self@, current, offsets@, i as int),
            decreases offsets@.len() - i,
        {
            if i + 1 == offsets.len() && offsets[i] == 0 {
                return current;
            }
            match self.read_offset_u64(current, offsets[i]) {
                Some(p) => {
                    current = p;
                },
                None => {
                    return 0;
                },
            }
            i = i + 1;
        }
        current
    }
}

/// A read at an offset from the null base fails, whatever the offset and
/// whatever the memory holds.
pub proof fn lemma_null_base_fails(m: MemView, offset: u64, len: nat)
    ensures
        read_offset_bytes_spec(m, 0, offset, len) is None,
        read_offset_u64_spec(m, 0, offset) is None,
        read_offset_u32_spec(m, 0, offset) is None,
        read_offset_i32_spec(m, 0, offset) is None,
        read_offset_vec2_spec(m, 0, offset) is None,
        read_offset_vec3_spec(m, 0, offset) is None,
        read_offset_utl_vector_spec(m, 0, offset) is None,
{
}

/// A chain of two hops closed by a terminal zero reads a pointer at
/// `base + o1`, fails if that pointer is null, and otherwise yields the pointer
/// read at `p1 + o2`.
pub proof fn lemma_trace_two_hops(m: MemView, base: u64, o1: u64, o2: u64)
    ensures
        trace_spec(m, base, seq![o1, o2, 0u64]) == match read_offset_u64_spec(m, base, o1) {
            Some(p1) => if p1 == 0 {
                0
            } else {
                match read_offset_u64_spec(m, p1, o2) {
                    Some(p2) => p2,
                    None => 0,
                }
            },
            None => 0u64,
        },
{
    let offs = seq![o1, o2, 0u64];
    assert(offs.len() == 3 && offs[0] == o1 && offs[1] == o2 && offs[2] == 0);
    if let Some(p1) = read_offset_u64_spec(m, base, o1) {
        assert(trace_from(m, base, offs, 0) == trace_from(m, p1, offs, 1));
        if let Some(p2) = read_offset_u64_spec(m, p1, o2) {
            assert(trace_from(m, p1, offs, 1) == trace_from(m, p2, offs, 2));
            assert(trace_from(m, p2, offs, 2) == p2);
        }
    }
}

} // verus!
