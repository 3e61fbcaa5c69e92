//! Model of the physical-memory collaborator: a pool of page-sized frames,
//! allocated one at a time, each zero-initialized on allocation. A frame's
//! index times the page size is its physical address.

use vstd::prelude::*;

use crate::PAGE_SIZE_4K;

verus! {

/// The physical page allocator together with the contents of every frame it
/// has handed out. Frames are never freed while a process runs, so the pool
/// only grows; the contents of already-allocated frames may be rewritten.
pub struct MemoryManager {
    frames: Vec<Vec<u8>>,
    capacity: usize,
}

impl MemoryManager {
    /// Contents of every allocated frame, in allocation order.
    pub closed spec fn frames(self) -> Seq<Seq<u8>> {
        self.frames@.map_values(|f: Vec<u8>| f@)
    }

    /// Number of frames the pool may hand out in total.
    pub closed spec fn capacity(self) -> nat {
        self.capacity as nat
    }

    pub open spec fn wf(self) -> bool {
        &&& self.frames().len() <= self.capacity()
        &&& self.capacity() * PAGE_SIZE_4K <= u64::MAX
        &&& forall|i: int|
            0 <= i < self.frames().len() ==> (#[trigger] self.frames()[i]).len() == PAGE_SIZE_4K
    }

    pub fn new(capacity: usize) -> (r: MemoryManager)
        requires
            capacity * PAGE_SIZE_4K <= u64::MAX,
        ensures
            r.wf(),
            r.frames() =~= Seq::<Seq<u8>>::empty(),
            r.capacity() == capacity,
    {
        MemoryManager { frames: Vec::new(), capacity }
    }

    pub fn frame_count(&self) -> (r: usize)
        ensures
            r == self.frames().len(),
    {
        self.frames.len()
    }

    pub fn frame_capacity(&self) -> (r: usize)
        ensures
            r == self.capacity(),
    {
        self.capacity
    }

    /// Allocate one zero-initialized frame; its index is returned. Fails
    /// exactly when the pool is exhausted, leaving the pool unchanged.
    pub fn alloc_frame(&mut self) -> (r: Result<usize, AllocationError>)
        requires
            old(self).wf(),
        ensures
            final(self).wf(),
            final(self).capacity() == old(self).capacity(),
            r is Ok <==> old(self).frames().len() < old(self).capacity(),
            r matches Ok(i) ==> {
                &&& i == old(self).frames().len()
                &&& final(self).frames() =~= old(self).frames().push(zero_page())
            },
            r is Err ==> *final(self) == *old(self),
    {
        if self.frames.len() < self.capacity {
            let idx = self.frames.len();
            let page = zeroed(PAGE_SIZE_4K);
            self.frames.push(page);
            proof {
                assert(self.frames() =~= old(self).frames().push(zero_page()));
            }
            Ok(idx)
        } else {
            Err(AllocationError)
        }
    }

    /// Replace the contents of one allocated frame.
    pub fn write_frame(&mut self, frame: usize, bytes: Vec<u8>)
        requires
            old(self).wf(),
            frame < old(self).frames().len(),
            bytes@.len() == PAGE_SIZE_4K,
        ensures
            final(self).wf(),
            final(self).capacity() == old(self).capacity(),
            final(self).frames() =~= old(self).frames().update(frame as int, bytes@),
    {
        self.frames[frame] = bytes;
        proof {
            assert(self.frames() =~= old(self).frames().update(frame as int, bytes@));
        }
    }

    /// Read `len` bytes of physical memory starting at physical address
    /// `paddr`, which must lie inside one allocated frame.
    pub fn read_phys(&self, paddr: u64, len: usize) -> (r: Vec<u8>)
        requires
            self.wf(),
            paddr / (PAGE_SIZE_4K as u64) < self.frames().len(),
            paddr % (PAGE_SIZE_4K as u64) + len <= PAGE_SIZE_4K,
        ensures
            r@ =~= self.frames()[paddr as int / PAGE_SIZE_4K as int].subrange(
                paddr as int % PAGE_SIZE_4K as int,
                paddr as int % PAGE_SIZE_4K as int + len,
            ),
    {
        let frame = (paddr / PAGE_SIZE_4K as u64) as usize;
        let off = (paddr % PAGE_SIZE_4K as u64) as usize;
        let src = &self.frames[frame];
        let mut out: Vec<u8> = Vec::new();
        let mut i: usize = 0;
        while i < len
            invariant
                i <= len,
                off + len <= PAGE_SIZE_4K,
                frame < self.frames().len(),
                frame == paddr as int / PAGE_SIZE_4K as int,
                off == paddr as int % PAGE_SIZE_4K as int,
                self.wf(),
                src@ == self.frames()[frame as int],
                out@ =~= self.frames()[frame as int].subrange(off as int, off as int + i),
            decreases len - i,
        {
            out.push(src[off + i]);
            i = i + 1;
            proof {
                assert(out@ =~= self.frames()[frame as int].subrange(off as int, off as int + i));
            }
        }
        out
    }
}

/// The frame pool or the page-table structures could not be grown: physical
/// memory is exhausted.
#[derive(Clone, Copy, PartialEq, Eq, Structural, Debug)]
pub struct AllocationError;

/// A page-sized run of zero bytes: the contents of a freshly allocated frame.
pub open spec fn zero_page() -> Seq<u8> {
    Seq::new(PAGE_SIZE_4K as nat, |i: int| 0u8)
}

/// A vector of `n` zero bytes.
pub fn zeroed(n: usize) -> (r: Vec<u8>)
    ensures
        r@ =~= Seq::new(n as nat, |i: int| 0u8),
{
    let mut out: Vec<u8> = Vec::new();
    let mut i: usize = 0;
    while i < n
        invariant
            i <= n,
            out@ =~= Seq::new(i as nat, |j: int| 0u8),
        decreases n - i,
    {
        out.push(0u8);
        i = i + 1;
        proof {
            assert(out@ =~= Seq::new(i as nat, |j: int| 0u8));
        }
    }
    out
}

} // verus!
