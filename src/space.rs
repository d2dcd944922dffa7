//! Address spaces: page-aligned, non-overlapping mapped ranges with
//! permissions, and bounds- and permission-checked cross-space access.

use crate::mm::{AccessFault, FrameSegment, PAGE_SIZE};
use vstd::prelude::*;

verus! {

/// Per-range permissions.
#[derive(Debug, Clone, Copy, PartialEq, Eq, Structural)]
pub struct PageFlags {
    pub read: bool,
    pub write: bool,
    pub execute: bool,
}

impl PageFlags {
    /// Read, write and execute.
    pub fn rwx() -> (r: PageFlags)
        ensures
            r == (PageFlags { read: true, write: true, execute: true }),
    {
        PageFlags { read: true, write: true, execute: true }
    }
}

/// The kind of a cross-space access.
#[derive(Debug, Clone, Copy, PartialEq, Eq, Structural)]
pub enum Access {
    Read,
    Write,
}

/// Whether `flags` allow an access of kind `acc`.
pub open spec fn permits(flags: PageFlags, acc: Access) -> bool {
    match acc {
        Access::Read => flags.read,
        Access::Write => flags.write,
    }
}

/// The abstract content of one mapped range.
pub ghost struct MappingView {
    pub base: int,
    pub bytes: Seq<u8>,
    pub flags: PageFlags,
}

/// The first virtual address past the range.
pub open spec fn range_end(m: MappingView) -> int {
    m.base + m.bytes.len()
}

/// The range starts and ends on a page boundary and lies inside the
/// 64-bit virtual address space.
pub open spec fn range_wf(m: MappingView) -> bool {
    &&& 0 <= m.base
    &&& m.base % PAGE_SIZE as int == 0
    &&& m.bytes.len() % PAGE_SIZE as nat == 0
    &&& range_end(m) <= u64::MAX + 1
}

/// The two ranges share at least one address.
pub open spec fn overlaps(a: MappingView, b: MappingView) -> bool {
    a.base < range_end(b) && b.base < range_end(a)
}

/// Address `a` lies inside range `m`.
pub open spec fn contains(m: MappingView, a: int) -> bool {
    m.base <= a < range_end(m)
}

/// Every range is page aligned and no two ranges overlap.
pub open spec fn space_wf(s: Seq<MappingView>) -> bool {
    &&& forall|i: int| 0 <= i < s.len() ==> range_wf(#[trigger] s[i])
    &&& forall|i: int, j: int|
        0 <= i < s.len() && 0 <= j < s.len() && i != j ==> !overlaps(#[trigger] s[i], #[trigger] s[j])
}

/// Address `a` is mapped by a range whose flags allow `acc`.
pub open spec fn accessible(s: Seq<MappingView>, a: int, acc: Access) -> bool {
    exists|i: int| 0 <= i < s.len() && contains(#[trigger] s[i], a) && permits(s[i].flags, acc)
}

/// Every byte of `[addr, addr + len)` is accessible for `acc`.
pub open spec fn range_accessible(s: Seq<MappingView>, addr: int, len: int, acc: Access) -> bool {
    forall|a: int| addr <= a < addr + len ==> #[trigger] accessible(s, a, acc)
}

/// The byte resident at address `a`, where some range maps it.
pub open spec fn byte_at(s: Seq<MappingView>, a: int) -> u8 {
    let i = choose|i: int| 0 <= i < s.len() && contains(#[trigger] s[i], a);
    s[i].bytes[a - s[i].base]
}

/// The bytes resident at `[addr, addr + len)`.
pub open spec fn bytes_at(s: Seq<MappingView>, addr: int, len: nat) -> Seq<u8> {
    Seq::new(len, |k: int| byte_at(s, addr + k))
}

/// A buffer with one byte that is unmapped, or mapped without the needed
/// permission, is not accessible as a whole.
pub proof fn lemma_one_bad_byte_denies_access(s: Seq<MappingView>, addr: int, len: int, acc: Access, a: int)
    requires
        addr <= a < addr + len,
        forall|i: int| 0 <= i < s.len() ==> !(contains(#[trigger] s[i], a) && permits(s[i].flags, acc)),
    ensures
        !range_accessible(s, addr, len, acc),
{
    assert(!accessible(s, a, acc));
}

/// Range `m` after the bytes `data` were stored at `addr`: the bytes of
/// `m` that lie in `[addr, addr + data.len())` are replaced.
pub open spec fn written(m: MappingView, addr: int, data: Seq<u8>) -> MappingView {
    MappingView {
        bytes: Seq::new(
            m.bytes.len(),
            |o: int|
                if addr <= m.base + o < addr + data.len() {
                    data[m.base + o - addr]
                } else {
                    m.bytes[o]
                },
        ),
        ..m
    }
}

/// In a well-formed space the range that contains an address is unique,
/// so the byte there is read from that range.
pub proof fn lemma_byte_at_in_range(s: Seq<MappingView>, i: int, a: int)
    requires
        space_wf(s),
        0 <= i < s.len(),
        contains(s[i], a),
    ensures
        byte_at(s, a) == s[i].bytes[a - s[i].base],
{
    let j = choose|j: int| 0 <= j < s.len() && contains(#[trigger] s[j], a);
    assert(0 <= j < s.len() && contains(s[j], a));
    if i != j {
        assert(!overlaps(s[i], s[j]));
    }
}

/// A buffer that lies wholly inside one readable range is readable, and
/// the bytes at it are that range's bytes at the same offsets.
pub proof fn lemma_buffer_in_range(s: Seq<MappingView>, i: int, addr: int, len: nat)
    requires
        space_wf(s),
        0 <= i < s.len(),
        s[i].flags.read,
        s[i].base <= addr,
        addr + len <= range_end(s[i]),
    ensures
        range_accessible(s, addr, len as int, Access::Read),
        bytes_at(s, addr, len) == s[i].bytes.subrange(addr - s[i].base, addr - s[i].base + len),
{
    assert forall|a: int| addr <= a < addr + len implies #[trigger] accessible(s, a, Access::Read) by {
        assert(contains(s[i], a));
    }
    assert forall|k: int| 0 <= k < len implies bytes_at(s, addr, len)[k] == s[i].bytes[addr - s[i].base + k] by {
        lemma_byte_at_in_range(s, i, addr + k);
    }
    assert(bytes_at(s, addr, len) =~= s[i].bytes.subrange(addr - s[i].base, addr - s[i].base + len));
}

/// One mapped range: a frame segment placed at a virtual base address.
pub struct MappedRange {
    base: u64,
    frames: FrameSegment,
    flags: PageFlags,
}

impl MappedRange {
    pub closed spec fn view(&self) -> MappingView {
        MappingView { base: self.base as int, bytes: self.frames@, flags: self.flags }
    }
}

/// A page-aligned mapping failed: the base is misaligned, the range leaves
/// the address space, or it overlaps an existing range.
#[derive(Debug, Clone, Copy, PartialEq, Eq, Structural)]
pub struct MappingViolation;

/// A virtual address space: a set of mapped ranges.
pub struct AddressSpace {
    ranges: Vec<MappedRange>,
}

impl View for AddressSpace {
    type V = Seq<MappingView>;

    closed spec fn view(&self) -> Seq<MappingView> {
        self.ranges@.map_values(|m: MappedRange| m.view())
    }
}

impl AddressSpace {
    pub open spec fn wf(&self) -> bool {
        space_wf(self@)
    }

    /// An empty address space.
    pub fn new() -> (r: AddressSpace)
        ensures
            r.wf(),
            r@ == Seq::<MappingView>::empty(),
    {
        let r = AddressSpace { ranges: Vec::new() };
        assert(r@ =~= Seq::<MappingView>::empty());
        r
    }

    /// The number of mapped ranges.
    pub fn num_ranges(&self) -> (r: usize)
        ensures
            r == self@.len(),
    {
        self.ranges.len()
    }

    /// The base address of range `i`.
    pub fn range_base(&self, i: usize) -> (r: u64)
        requires
            i < self@.len(),
        ensures
            r == self@[i as int].base,
    {
        assert(self@[i as int] == self.ranges@[i as int].view());
        self.ranges[i].base
    }

    /// The length in bytes of range `i`.
    pub fn range_len(&self, i: usize) -> (r: usize)
        requires
            i < self@.len(),
        ensures
            r == self@[i as int].bytes.len(),
    {
        assert(self@[i as int] == self.ranges@[i as int].view());
        self.ranges[i].frames.nbytes()
    }

    /// The permissions of range `i`.
    pub fn range_flags(&self, i: usize) -> (r: PageFlags)
        requires
            i < self@.len(),
        ensures
            r == self@[i as int].flags,
    {
        assert(self@[i as int] == self.ranges@[i as int].view());
        self.ranges[i].flags
    }

    /// Maps `frames` at `base` with `flags`. Fails, leaving the space
    /// unchanged, when `base` is not page aligned, the range does not fit in
    /// the address space, or it overlaps a range that is already mapped.
    pub fn map(&mut self, base: u64, frames: FrameSegment, flags: PageFlags) -> (r: Result<(), MappingViolation>)
        requires
            old(self).wf(),
            frames.wf(),
        ensures
            final(self).wf(),
            ({
                let m = MappingView { base: base as int, bytes: frames@, flags };
                &&& r is Ok <==> range_wf(m) && forall|i: int| 0 <= i < old(self)@.len()
                    ==> !overlaps(#[trigger] old(self)@[i], m)
                &&& r is Ok ==> final(self)@ == old(self)@.push(m)
                &&& r is Err ==> final(self)@ == old(self)@
            }),
    {
        let ghost m = MappingView { base: base as int, bytes: frames@, flags };
        let len: usize = frames.nbytes();
        let end: u128 = base as u128 + len as u128;
        if base % (PAGE_SIZE as u64) != 0 || end > u64::MAX as u128 + 1 {
            return Err(MappingViolation);
        }
        let mut i: usize = 0;
        while i < self.ranges.len()
            invariant
                0 <= i <= self.ranges@.len(),
                self@ == old(self)@,
                space_wf(self@),
                m == (MappingView { base: base as int, bytes: frames@, flags }),
                end == range_end(m),
                forall|k: int| 0 <= k < i ==> !overlaps(#[trigger] self@[k], m),
            decreases self.ranges@.len() - i,
        {
            let other = &self.ranges[i];
            let other_end: u128 = other.base as u128 + other.frames.nbytes() as u128;
            assert(self@[i as int] == other.view());
            if (other.base as u128) < end && (base as u128) < other_end {
                assert(overlaps(self@[i as int], m));
                return Err(MappingViolation);
            }
            assert(!overlaps(self@[i as int], m));
            i = i + 1;
        }
        let ghost prev = self@;
        self.ranges.push(MappedRange { base, frames, flags });
        assert(self@ =~= prev.push(m));
        Ok(())
    }

    /// The index of a range that maps `a` and allows `acc`, if any.
    fn find_range(&self, a: u64, acc: Access) -> (r: Option<usize>)
        requires
            self.wf(),
        ensures
            r matches Some(i) ==> i < self@.len() && contains(self@[i as int], a as int)
                && permits(self@[i as int].flags, acc),
            r is None ==> !accessible(self@, a as int, acc),
    {
        let mut i: usize = 0;
        while i < self.ranges.len()
            invariant
                0 <= i <= self.ranges@.len(),
                self.wf(),
                forall|k: int| 0 <= k < i ==> !(contains(#[trigger] self@[k], a as int)
                    && permits(self@[k].flags, acc)),
            decreases self.ranges@.len() - i,
        {
            let m = &self.ranges[i];
            assert(self@[i as int] == m.view());
            let end: u128 = m.base as u128 + m.frames.nbytes() as u128;
            let allowed = match acc {
                Access::Read => m.flags.read,
                Access::Write => m.flags.write,
            };
            if m.base <= a && (a as u128) < end && allowed {
                return Some(i);
            }
            i = i + 1;
        }
        None
    }

    /// Copies the `len` bytes at `[addr, addr + len)` out of this space.
    /// Fails, without touching anything, when any byte of the range is
    /// unmapped or lies in a range without read permission.
    pub fn read(&self, addr: u64, len: u64) -> (r: Result<Vec<u8>, AccessFault>)
        requires
            self.wf(),
        ensures
            r is Ok <==> range_accessible(self@, addr as int, len as int, Access::Read),
            r matches Ok(v) ==> v@ == bytes_at(self@, addr as int, len as nat),
    {
        let mut v: Vec<u8> = Vec::new();
        let mut k: u64 = 0;
        while k < len
            invariant
                0 <= k <= len,
                self.wf(),
                v@.len() == k,
                forall|j: int| 0 <= j < k ==> v@[j] == byte_at(self@, addr + j),
                forall|a: int| addr <= a < addr + k ==> #[trigger] accessible(self@, a, Access::Read),
            decreases len - k,
        {
            if addr > u64::MAX - k {
                let ghost a = addr + k;
                assert forall|i: int| 0 <= i < self@.len() implies !contains(#[trigger] self@[i], a) by {
                    assert(range_wf(self@[i]));
                }
                assert(!accessible(self@, a, Access::Read));
                return Err(AccessFault);
            }
            let a: u64 = addr + k;
            match self.find_range(a, Access::Read) {
                None => {
                    return Err(AccessFault);
                },
                Some(i) => {
                    let m = &self.ranges[i];
                    assert(self@[i as int] == m.view());
                    let d: u64 = a - m.base;
                    let n: usize = m.frames.nbytes();
                    assert(d < n);
                    let b = m.frames.byte(d as usize);
                    proof {
                        lemma_byte_at_in_range(self@, i as int, a as int);
                    }
                    v.push(b);
                    k = k + 1;
                },
            }
        }
        assert(v@ =~= bytes_at(self@, addr as int, len as nat));
        Ok(v)
    }

    /// Whether every byte of `[addr, addr + len)` is accessible for `acc`.
    fn check_access(&self, addr: u64, len: u64, acc: Access) -> (r: bool)
        requires
            self.wf(),
        ensures
            r == range_accessible(self@, addr as int, len as int, acc),
    {
        let mut k: u64 = 0;
        while k < len
            invariant
                0 <= k <= len,
                self.wf(),
                forall|a: int| addr <= a < addr + k ==> #[trigger] accessible(self@, a, acc),
            decreases len - k,
        {
            if addr > u64::MAX - k {
                let ghost a = addr + k;
                assert forall|i: int| 0 <= i < self@.len() implies !contains(#[trigger] self@[i], a) by {
                    assert(range_wf(self@[i]));
                }
                assert(!accessible(self@, a, acc));
                return false;
            }
            if self.find_range(addr + k, acc).is_none() {
                return false;
            }
            k = k + 1;
        }
        true
    }

    /// Copies `data` into this space at `addr`. Fails, leaving the space
    /// unchanged, when any byte of `[addr, addr + data.len())` is unmapped
    /// or lies in a range without write permission.
    pub fn write(&mut self, addr: u64, data: &[u8]) -> (r: Result<(), AccessFault>)
        requires
            old(self).wf(),
        ensures
            final(self).wf(),
            r is Ok <==> range_accessible(old(self)@, addr as int, data@.len() as int, Access::Write),
            r is Ok ==> final(self)@ == old(self)@.map_values(|m: MappingView| written(m, addr as int, data@)),
            r is Err ==> final(self)@ == old(self)@,
    {
        let len: usize = data.len();
        if !self.check_access(addr, len as u64, Access::Write) {
            return Err(AccessFault);
        }
        let ghost before = self@;
        let target_end: u128 = addr as u128 + len as u128;
        let mut i: usize = 0;
        while i < self.ranges.len()
            invariant
                0 <= i <= self.ranges@.len(),
                self@.len() == before.len(),
                space_wf(before),
                target_end == addr + data@.len(),
                len == data@.len(),
                forall|k: int| 0 <= k < i ==> #[trigger] self@[k] == written(before[k], addr as int, data@),
                forall|k: int| i <= k < self@.len() ==> #[trigger] self@[k] == before[k],
            decreases self.ranges@.len() - i,
        {
            let base: u64 = self.ranges[i].base;
            let n: usize = self.ranges[i].frames.nbytes();
            assert(self@[i as int] == self.ranges@[i as int].view());
            assert(range_wf(before[i as int]));
            let range_end: u128 = base as u128 + n as u128;
            let lo: u128 = if (addr as u128) > (base as u128) { addr as u128 } else { base as u128 };
            let hi: u128 = if target_end < range_end { target_end } else { range_end };
            let ghost prev = self@;
            if lo < hi {
                assert(lo - base < n && lo - addr <= hi - addr <= len);
                let off: usize = (lo - base as u128) as usize;
                let start: usize = (lo - addr as u128) as usize;
                let end: usize = (hi - addr as u128) as usize;
                let mut m = self.ranges.remove(i);
                assert(m.view() == before[i as int]);
                m.frames.write_range(off, data, start, end);
                self.ranges.insert(i, m);
                assert forall|o: int| 0 <= o < n implies #[trigger] m.view().bytes[o]
                    == written(before[i as int], addr as int, data@).bytes[o] by {
                    assert(off <= o < off + (end - start) <==> addr <= base + o < addr + len);
                }
                assert(m.view().bytes =~= written(before[i as int], addr as int, data@).bytes);
            } else {
                assert(self@[i as int].bytes =~= written(before[i as int], addr as int, data@).bytes);
            }
            assert(self@ =~= prev.update(i as int, written(before[i as int], addr as int, data@)));
            i = i + 1;
        }
        assert(self@ =~= before.map_values(|m: MappingView| written(m, addr as int, data@)));
        Ok(())
    }
}

} // verus!
