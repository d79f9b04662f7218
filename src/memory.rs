use vstd::prelude::*;

use crate::ffi::Layout;
use crate::heap::{Box, Heap};

verus! {

/// Why a request for memory was refused.
#[derive(Clone, Copy, Debug, PartialEq, Eq, Structural)]
pub enum AllocError {
    /// The alignment is not a power of two, or the size overflows once rounded.
    BadLayout,
    /// Every block index has been handed out.
    Exhausted,
}

/// Why a release was refused. A refused release changes nothing.
#[derive(Clone, Copy, Debug, PartialEq, Eq, Structural)]
pub enum ReleaseError {
    /// The block is not allocated: never handed out, or released already.
    NotAllocated,
    /// The layout differs from the one the block was allocated with.
    LayoutMismatch,
}

/// The native side's memory as the host sees it: blocks of bytes, each with
/// the layout it was allocated with, addressed by block index.
pub struct Memory {
    pub blocks: Heap<Vec<u8>>,
    pub layouts: Vec<Layout>,
}

impl Memory {
    pub open spec fn wf(&self) -> bool {
        self.layouts@.len() == self.blocks@.len()
    }

    /// The layout block `p` was allocated with.
    pub open spec fn layout_of(&self, p: usize) -> Layout {
        self.layouts@[p as int]
    }

    /// `after` is `before` after `allocate(layout)` returned `r`.
    pub open spec fn allocated(before: Memory, after: Memory, layout: Layout, r: Result<usize, AllocError>) -> bool {
        &&& !layout.valid() ==> r == Err::<usize, AllocError>(AllocError::BadLayout) && after == before
        &&& layout.valid() && before.blocks@.len() >= usize::MAX ==> r == Err::<usize, AllocError>(
            AllocError::Exhausted,
        ) && after == before
        &&& layout.valid() && before.blocks@.len() < usize::MAX ==> {
            &&& r == Ok::<usize, AllocError>(before.blocks@.len() as usize)
            &&& after.layouts@ == before.layouts@.push(layout)
            &&& after.blocks@.len() == before.blocks@.len() + 1
            &&& after.blocks@.subrange(0, before.blocks@.len() as int) == before.blocks@
            &&& after.blocks.live(r->Ok_0)
            &&& after.blocks.value(r->Ok_0)@.len() == layout.size
        }
    }

    /// `after` is `before` after `release(layout, p)` returned `r`.
    pub open spec fn released(before: Memory, after: Memory, layout: Layout, p: usize, r: Result<(), ReleaseError>) -> bool {
        &&& !before.blocks.live(p) ==> r == Err::<(), ReleaseError>(ReleaseError::NotAllocated) && after == before
        &&& before.blocks.live(p) && before.layout_of(p) != layout ==> r == Err::<(), ReleaseError>(
            ReleaseError::LayoutMismatch,
        ) && after == before
        &&& before.blocks.live(p) && before.layout_of(p) == layout ==> {
            &&& r == Ok::<(), ReleaseError>(())
            &&& after.blocks@ == before.blocks@.update(p as int, None)
            &&& after.layouts@ == before.layouts@
        }
    }

    /// No memory.
    pub fn new() -> (r: Memory)
        ensures
            r.wf(),
            r.blocks@.len() == 0,
    {
        Memory { blocks: Heap::new(), layouts: Vec::new() }
    }

    /// Allocates a zeroed block of `layout.size` bytes and returns its index.
    pub fn allocate(&mut self, layout: Layout) -> (r: Result<usize, AllocError>)
        requires
            old(self).wf(),
        ensures
            final(self).wf(),
            Memory::allocated(*old(self), *final(self), layout, r),
    {
        match layout.into_native() {
            None => Err(AllocError::BadLayout),
            Some(l) => {
                if self.blocks.len() == usize::MAX {
                    Err(AllocError::Exhausted)
                } else {
                    let bytes: Vec<u8> = vec![0u8; l.size];
                    let h = self.blocks.insert(bytes);
                    self.layouts.push(l);
                    assert(self.blocks@.subrange(0, old(self).blocks@.len() as int) =~= old(
                        self,
                    ).blocks@);
                    Ok(h.0)
                }
            },
        }
    }

    /// Releases block `p`, which must have been allocated with `layout`.
    pub fn release(&mut self, layout: Layout, p: usize) -> (r: Result<(), ReleaseError>)
        requires
            old(self).wf(),
        ensures
            final(self).wf(),
            Memory::released(*old(self), *final(self), layout, p, r),
    {
        let h = Box::from_index(p);
        if !self.blocks.is_live(&h) {
            return Err(ReleaseError::NotAllocated);
        }
        let recorded = self.layouts[p];
        if recorded.size != layout.size || recorded.align != layout.align {
            return Err(ReleaseError::LayoutMismatch);
        }
        let _ = self.blocks.remove(h);
        Ok(())
    }

    /// Copies `bytes` over the start of block `p`: how the host fills memory
    /// that it allocated. Gives `false`, and changes nothing, where `p` is not
    /// allocated or is shorter than `bytes`.
    pub fn write(&mut self, p: usize, bytes: &[u8]) -> (r: bool)
        requires
            old(self).wf(),
        ensures
            final(self).wf(),
            r == (old(self).blocks.live(p) && bytes@.len() <= old(self).blocks.value(p)@.len()),
            final(self).layouts == old(self).layouts,
            r ==> final(self).blocks@ == old(self).blocks@.update(
                p as int,
                Some(final(self).blocks.value(p)),
            ) && final(self).blocks.value(p)@ == bytes@ + old(self).blocks.value(p)@.subrange(
                bytes@.len() as int,
                old(self).blocks.value(p)@.len() as int,
            ),
            !r ==> final(self).blocks@ == old(self).blocks@,
    {
        let h = Box::from_index(p);
        let mut block: Vec<u8> = Vec::new();
        if !self.blocks.swap(&h, &mut block) {
            return false;
        }
        let ghost orig = block@;
        if bytes.len() > block.len() {
            self.blocks.swap(&h, &mut block);
            assert(self.blocks@ =~= old(self).blocks@);
            return false;
        }
        let mut i: usize = 0;
        while i < bytes.len()
            invariant
                i <= bytes@.len(),
                bytes@.len() <= orig.len(),
                block@.len() == orig.len(),
                forall|k: int| 0 <= k < i ==> block@[k] == bytes@[k],
                forall|k: int| i <= k < orig.len() ==> block@[k] == orig[k],
            decreases bytes@.len() - i,
        {
            block.set(i, bytes[i]);
            i = i + 1;
        }
        assert(block@ =~= bytes@ + orig.subrange(bytes@.len() as int, orig.len() as int));
        self.blocks.swap(&h, &mut block);
        assert(self.blocks@ =~= old(self).blocks@.update(p as int, Some(self.blocks.value(p))));
        true
    }

    /// Takes ownership of a buffer the host filled, as a block of alignment
    /// one, and returns its index.
    pub fn adopt(&mut self, bytes: Vec<u8>) -> (r: Result<usize, AllocError>)
        requires
            old(self).wf(),
        ensures
            final(self).wf(),
            old(self).blocks@.len() >= usize::MAX ==> r == Err::<usize, AllocError>(
                AllocError::Exhausted,
            ) && *final(self) == *old(self),
            old(self).blocks@.len() < usize::MAX && bytes@.len() > isize::MAX ==> r == Err::<
                usize,
                AllocError,
            >(AllocError::BadLayout) && *final(self) == *old(self),
            old(self).blocks@.len() < usize::MAX && bytes@.len() <= isize::MAX ==> {
                &&& r == Ok::<usize, AllocError>(old(self).blocks@.len() as usize)
                &&& final(self).blocks@ == old(self).blocks@.push(Some(bytes))
                &&& final(self).layouts@ == old(self).layouts@.push(
                    Layout { size: bytes@.len() as usize, align: 1 },
                )
            },
    {
        if self.blocks.len() == usize::MAX {
            return Err(AllocError::Exhausted);
        }
        let layout = Layout { size: bytes.len(), align: 1 };
        if layout.into_native().is_none() {
            return Err(AllocError::BadLayout);
        }
        let h = self.blocks.insert(bytes);
        self.layouts.push(layout);
        Ok(h.0)
    }
}

/// A block allocated with a valid layout and released with the same layout
/// is released without error, and its slot is left empty.
pub proof fn alloc_release_same_layout(
    m0: Memory,
    m1: Memory,
    m2: Memory,
    layout: Layout,
    a: Result<usize, AllocError>,
    p: usize,
    r: Result<(), ReleaseError>,
)
    requires
        m0.wf(),
        layout.valid(),
        m0.blocks@.len() < usize::MAX,
        Memory::allocated(m0, m1, layout, a),
        a == Ok::<usize, AllocError>(p),
        Memory::released(m1, m2, layout, p, r),
    ensures
        r is Ok,
        !m2.blocks.live(p),
        m2.blocks@.len() == m0.blocks@.len() + 1,
{
}

/// Releasing a block with a layout other than the one it was allocated with
/// is refused, and the block stays allocated.
pub proof fn release_mismatched_layout(
    m0: Memory,
    m1: Memory,
    m2: Memory,
    layout: Layout,
    other: Layout,
    a: Result<usize, AllocError>,
    p: usize,
    r: Result<(), ReleaseError>,
)
    requires
        m0.wf(),
        layout != other,
        Memory::allocated(m0, m1, layout, a),
        a == Ok::<usize, AllocError>(p),
        Memory::released(m1, m2, other, p, r),
    ensures
        r == Err::<(), ReleaseError>(ReleaseError::LayoutMismatch),
        m2 == m1,
        m2.blocks.live(p),
{
    assert(layout.valid() && m0.blocks@.len() < usize::MAX);
    assert(m1.layout_of(p) == layout);
}

} // verus!
