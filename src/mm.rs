//! Physical frame segments and page alignment.

use vstd::prelude::*;

verus! {

/// The size of one page (and of one physical frame) in bytes.
pub const PAGE_SIZE: usize = 4096;

/// The smallest multiple of the page size that is at least `n`.
pub open spec fn page_ceil(n: int) -> int {
    ((n + PAGE_SIZE - 1) / PAGE_SIZE as int) * PAGE_SIZE
}

/// Relies on `align_ext::AlignExt::align_up`: for a power-of-two alignment
/// of at least 2 it returns the smallest multiple of the alignment that is
/// greater than or equal to `n`; it panics only when `n + align - 1`
/// overflows, which `requires` rules out.
#[verifier::external_body]
pub(crate) fn align_up_to_page(n: usize) -> (r: usize)
    requires
        n + PAGE_SIZE - 1 <= usize::MAX,
    ensures
        r == page_ceil(n as int),
{
    align_ext::AlignExt::align_up(n, PAGE_SIZE)
}

/// A run of contiguous physical frames, owned by one address space.
pub struct FrameSegment {
    bytes: Vec<u8>,
}

impl View for FrameSegment {
    type V = Seq<u8>;

    closed spec fn view(&self) -> Seq<u8> {
        self.bytes@
    }
}

impl FrameSegment {
    /// A segment always spans a whole number of frames.
    pub open spec fn wf(&self) -> bool {
        self@.len() % PAGE_SIZE as nat == 0
    }

    /// Allocates `nframes` zero-filled frames.
    pub fn alloc_segment(nframes: usize) -> (r: FrameSegment)
        requires
            nframes * PAGE_SIZE <= usize::MAX,
        ensures
            r.wf(),
            r@ == Seq::new((nframes * PAGE_SIZE) as nat, |i: int| 0u8),
    {
        let n: usize = nframes * PAGE_SIZE;
        let bytes = vec![0u8; n];
        let r = FrameSegment { bytes };
        assert(r@ =~= Seq::new((nframes * PAGE_SIZE) as nat, |i: int| 0u8));
        r
    }

    /// The number of frames in the segment.
    pub fn nframes(&self) -> (r: usize)
        requires
            self.wf(),
        ensures
            r * PAGE_SIZE == self@.len(),
    {
        self.bytes.len() / PAGE_SIZE
    }

    /// Copies `data[start..end]` into the segment at byte `offset`.
    pub fn write_range(&mut self, offset: usize, data: &[u8], start: usize, end: usize)
        requires
            start <= end <= data@.len(),
            offset + (end - start) <= old(self)@.len(),
        ensures
            final(self)@.len() == old(self)@.len(),
            forall|o: int| 0 <= o < old(self)@.len() ==> #[trigger] final(self)@[o] == if offset <= o < offset
                + (end - start) {
                data@[start + o - offset]
            } else {
                old(self)@[o]
            },
    {
        let total: usize = self.bytes.len();
        let mut i: usize = start;
        while i < end
            invariant
                start <= i <= end <= data@.len(),
                total == old(self)@.len(),
                offset + (end - start) <= old(self)@.len(),
                self.bytes@.len() == old(self)@.len(),
                forall|o: int| 0 <= o < old(self)@.len() ==> #[trigger] self.bytes@[o] == if offset <= o
                    < offset + (i - start) {
                    data@[start + o - offset]
                } else {
                    old(self)@[o]
                },
            decreases end - i,
        {
            self.bytes.set(offset + (i - start), data[i]);
            i = i + 1;
        }
    }

    /// The byte at offset `i`.
    pub fn byte(&self, i: usize) -> (r: u8)
        requires
            i < self@.len(),
        ensures
            r == self@[i as int],
    {
        self.bytes[i]
    }

    /// The length of the segment in bytes.
    pub fn nbytes(&self) -> (r: usize)
        ensures
            r == self@.len(),
    {
        self.bytes.len()
    }

    /// Copies `data` into the segment starting at byte `offset`.
    pub fn write_bytes(&mut self, offset: usize, data: &[u8]) -> (r: Result<(), AccessFault>)
        ensures
            r is Ok <==> offset + data@.len() <= old(self)@.len(),
            r is Ok ==> final(self)@ == old(self)@.subrange(0, offset as int) + data@
                + old(self)@.subrange(offset + data@.len(), old(self)@.len() as int),
            r is Err ==> final(self)@ == old(self)@,
            final(self)@.len() == old(self)@.len(),
    {
        if data.len() > self.bytes.len() || offset > self.bytes.len() - data.len() {
            return Err(AccessFault);
        }
        let ghost before = self.bytes@;
        assert(before.len() <= usize::MAX);
        let mut i: usize = 0;
        while i < data.len()
            invariant
                offset + data@.len() <= before.len(),
                before.len() <= usize::MAX,
                self.bytes@.len() == before.len(),
                0 <= i <= data@.len(),
                forall|k: int| 0 <= k < offset ==> self.bytes@[k] == before[k],
                forall|k: int| offset <= k < offset + i ==> self.bytes@[k] == data@[k - offset],
                forall|k: int| offset + i <= k < before.len() ==> self.bytes@[k] == before[k],
            decreases data@.len() - i,
        {
            self.bytes.set(offset + i, data[i]);
            i = i + 1;
        }
        assert(self.bytes@ =~= before.subrange(0, offset as int) + data@
            + before.subrange(offset + data@.len(), before.len() as int));
        Ok(())
    }
}

/// A cross-space access touched a byte that is unmapped or lacks the
/// required permission.
#[derive(Debug, Clone, Copy, PartialEq, Eq, Structural)]
pub struct AccessFault;

} // verus!
