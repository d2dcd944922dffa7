//! Loading a raw program image into a fresh address space.

use crate::mm::{align_up_to_page, page_ceil, FrameSegment, PAGE_SIZE};
use crate::space::{AddressSpace, MappingView, PageFlags};
use vstd::prelude::*;

verus! {

/// The virtual address at which a statically linked program is mapped.
pub const MAP_ADDR: u64 = 0x120000000;

/// The image followed by zero bytes up to the next page boundary.
pub open spec fn padded_image(img: Seq<u8>) -> Seq<u8> {
    img + Seq::new((page_ceil(img.len() as int) - img.len()) as nat, |i: int| 0u8)
}

/// The one mapping that loading `img` produces.
pub open spec fn image_mapping(img: Seq<u8>) -> MappingView {
    MappingView {
        base: MAP_ADDR as int,
        bytes: padded_image(img),
        flags: PageFlags { read: true, write: true, execute: true },
    }
}

/// Rounding up to a page boundary adds less than one page.
pub proof fn lemma_page_ceil_bounds(n: int)
    requires
        0 <= n,
    ensures
        n <= page_ceil(n) < n + PAGE_SIZE,
        page_ceil(n) % PAGE_SIZE as int == 0,
{
    let q = (n + PAGE_SIZE - 1) / PAGE_SIZE as int;
    assert(page_ceil(n) == q * 4096);
    assert((q * 4096) % 4096 == 0) by (nonlinear_arith);
}

/// Builds the address space of a program: the image, zero-padded to a
/// whole number of pages, mapped read/write/execute at `MAP_ADDR`.
/// The space is returned inactive.
pub fn create_vm_space(program: &[u8]) -> (r: AddressSpace)
    requires
        MAP_ADDR + program@.len() + PAGE_SIZE <= u64::MAX,
        program@.len() + PAGE_SIZE <= usize::MAX,
    ensures
        r.wf(),
        r@ == seq![image_mapping(program@)],
        r@[0].bytes.len() == ((program@.len() + PAGE_SIZE - 1) / PAGE_SIZE as int) * PAGE_SIZE,
{
    proof {
        lemma_page_ceil_bounds(program@.len() as int);
    }
    let nbytes: usize = align_up_to_page(program.len());
    let mut segment = FrameSegment::alloc_segment(nbytes / PAGE_SIZE);
    let _ = segment.write_bytes(0, program);
    assert(segment@ =~= padded_image(program@));
    let mut vm_space = AddressSpace::new();
    let _ = vm_space.map(MAP_ADDR, segment, PageFlags::rwx());
    assert(vm_space@ =~= seq![image_mapping(program@)]);
    vm_space
}

} // verus!
