//! One process's virtual address space: a virtual range `[base, base+size)`,
//! a set of mapped regions backed by physical frames, and a root page-table
//! frame. Mapping is atomic: a rejected request leaves the space and the
//! frame pool exactly as they were.

use vstd::prelude::*;

use crate::mem::{zero_page, AllocationError, MemoryManager};
use crate::PAGE_SIZE_4K;

verus! {

/// Permissions of one mapped region.
#[derive(Clone, Copy, PartialEq, Eq, Structural, Debug)]
pub struct MappingFlags {
    pub read: bool,
    pub write: bool,
    pub execute: bool,
    pub user: bool,
}

/// Why a mapping request was rejected. A failed request changes nothing.
#[derive(Clone, Copy, PartialEq, Eq, Structural, Debug)]
pub enum MappingError {
    /// The start or the size is not a multiple of the page size, or the size
    /// is zero.
    Misaligned,
    /// The region does not lie inside the address space's virtual range.
    OutOfRange,
    /// The region intersects a region that is already mapped.
    Overlap,
    /// No physical backing could be allocated.
    NoMemory,
}

/// One mapped region: a virtual range with permissions, backed by one
/// physical frame per page.
#[derive(Debug)]
pub struct MemRegion {
    pub start: u64,
    pub size: u64,
    pub flags: MappingFlags,
    pub frames: Vec<usize>,
}

/// A kernel mapping copied into a process's address space, recorded as range
/// and permissions. Its physical backing is the kernel's own and is shared,
/// never owned, by the process.
#[derive(Clone, Copy, PartialEq, Eq, Structural, Debug)]
pub struct KernelRegion {
    pub start: u64,
    pub size: u64,
    pub flags: MappingFlags,
}

/// Two ranges intersect in at least one address. Meaningful for non-empty
/// ranges.
pub open spec fn ranges_overlap(a_start: int, a_size: int, b_start: int, b_size: int) -> bool {
    a_start < b_start + b_size && b_start < a_start + a_size
}

/// `vaddr` lies inside region `r`.
pub open spec fn region_contains(r: MemRegion, vaddr: int) -> bool {
    r.start <= vaddr < r.start + r.size
}

/// A region is page-aligned, non-empty, and backed by one representable
/// frame per page.
pub open spec fn region_wf(r: MemRegion) -> bool {
    &&& r.start as int % (PAGE_SIZE_4K as int) == 0
    &&& r.size as int % (PAGE_SIZE_4K as int) == 0
    &&& r.size > 0
    &&& r.frames@.len() == r.size as int / (PAGE_SIZE_4K as int)
    &&& forall|i: int|
        0 <= i < r.frames@.len() ==> ((#[trigger] r.frames@[i]) + 1) * (PAGE_SIZE_4K as int)
            <= u64::MAX
}

/// The physical address that region `r` assigns to `vaddr`; meaningful when
/// `region_contains(r, vaddr)` holds.
pub open spec fn region_paddr(r: MemRegion, vaddr: int) -> int {
    r.frames@[(vaddr - r.start) / (PAGE_SIZE_4K as int)] * (PAGE_SIZE_4K as int) + (vaddr
        - r.start) % (PAGE_SIZE_4K as int)
}

/// One process's virtual memory universe.
pub struct AddrSpace {
    base: u64,
    size: u64,
    pt_root: usize,
    regions: Vec<MemRegion>,
    kernel_regions: Vec<KernelRegion>,
}

impl AddrSpace {
    pub closed spec fn base_spec(self) -> int {
        self.base as int
    }

    pub closed spec fn size_spec(self) -> int {
        self.size as int
    }

    /// Frame index of the root page table backing this space.
    pub closed spec fn pt_root_spec(self) -> int {
        self.pt_root as int
    }

    /// The process-owned regions, in mapping order.
    pub closed spec fn regions_spec(self) -> Seq<MemRegion> {
        self.regions@
    }

    /// The kernel mappings copied into this space.
    pub closed spec fn kernel_regions_spec(self) -> Seq<KernelRegion> {
        self.kernel_regions@
    }

    /// `[start, start+size)` lies inside this space's virtual range.
    pub open spec fn in_range(self, start: int, size: int) -> bool {
        self.base_spec() <= start && start + size <= self.base_spec() + self.size_spec()
    }

    pub open spec fn wf(self) -> bool {
        &&& self.base_spec() + self.size_spec() <= u64::MAX
        &&& ((self.pt_root_spec() + 1) * (PAGE_SIZE_4K as int) <= u64::MAX)
        &&& forall|i: int|
            0 <= i < self.regions_spec().len() ==> region_wf(#[trigger] self.regions_spec()[i])
        &&& forall|i: int|
            0 <= i < self.regions_spec().len() ==> self.in_range(
                (#[trigger] self.regions_spec()[i]).start as int,
                self.regions_spec()[i].size as int,
            )
        &&& forall|i: int, j: int|
            0 <= i < self.regions_spec().len() && 0 <= j < self.regions_spec().len() && i != j
                ==> !ranges_overlap(
                (#[trigger] self.regions_spec()[i]).start as int,
                self.regions_spec()[i].size as int,
                (#[trigger] self.regions_spec()[j]).start as int,
                self.regions_spec()[j].size as int,
            )
    }

    /// Every frame backing this space (root page table included) has an
    /// index below `n`.
    pub open spec fn frames_below(self, n: int) -> bool {
        &&& self.pt_root_spec() < n
        &&& forall|i: int, k: int|
            0 <= i < self.regions_spec().len() && 0 <= k
                < self.regions_spec()[i].frames@.len()
                ==> (#[trigger] self.regions_spec()[i].frames@[k]) < n
    }

    /// Every frame backing this space was allocated by `mm`.
    pub open spec fn backed_by(self, mm: MemoryManager) -> bool {
        self.frames_below(mm.frames().len() as int)
    }

    /// Every frame backing this space (root page table included) has an
    /// index at or above `n`.
    pub open spec fn frames_at_or_above(self, n: int) -> bool {
        &&& self.pt_root_spec() >= n
        &&& forall|i: int, k: int|
            0 <= i < self.regions_spec().len() && 0 <= k
                < self.regions_spec()[i].frames@.len()
                ==> (#[trigger] self.regions_spec()[i].frames@[k]) >= n
    }

    /// `f` is one of the frames backing this space.
    pub open spec fn uses_frame(self, f: int) -> bool {
        ||| self.pt_root_spec() == f
        ||| exists|i: int, k: int|
            0 <= i < self.regions_spec().len() && 0 <= k
                < self.regions_spec()[i].frames@.len()
                && (#[trigger] self.regions_spec()[i].frames@[k]) == f
    }

    /// `vaddr` lies in some mapped, process-owned region.
    pub open spec fn mapped(self, vaddr: int) -> bool {
        exists|i: int|
            0 <= i < self.regions_spec().len() && region_contains(
                #[trigger] self.regions_spec()[i],
                vaddr,
            )
    }

    /// The range is page-aligned, non-empty, inside the space, and free: the
    /// conditions under which `map` installs it, physical memory permitting.
    pub open spec fn can_map_range(self, vaddr: int, size: int) -> bool {
        &&& aligned_range(vaddr, size)
        &&& self.in_range(vaddr, size)
        &&& !self.overlaps_existing(vaddr, size)
    }

    /// The range intersects a region that is already mapped.
    pub open spec fn overlaps_existing(self, vaddr: int, size: int) -> bool {
        exists|i: int|
            0 <= i < self.regions_spec().len() && ranges_overlap(
                vaddr,
                size,
                (#[trigger] self.regions_spec()[i]).start as int,
                self.regions_spec()[i].size as int,
            )
    }

    /// Create an empty address space spanning `[base, base+size)`. One frame
    /// is drawn from `mm` for the root page-table structure; creation fails
    /// exactly when that frame cannot be allocated, and then changes nothing.
    pub fn new_empty(mm: &mut MemoryManager, base: u64, size: u64) -> (r: Result<
        AddrSpace,
        AllocationError,
    >)
        requires
            old(mm).wf(),
            base + size <= u64::MAX,
        ensures
            final(mm).wf(),
            final(mm).capacity() == old(mm).capacity(),
            r is Ok <==> old(mm).frames().len() < old(mm).capacity(),
            r matches Ok(s) ==> {
                &&& s.wf()
                &&& s.base_spec() == base
                &&& s.size_spec() == size
                &&& s.regions_spec().len() == 0
                &&& s.kernel_regions_spec().len() == 0
                &&& s.pt_root_spec() == old(mm).frames().len()
                &&& s.backed_by(*final(mm))
                &&& s.frames_at_or_above(old(mm).frames().len() as int)
                &&& final(mm).frames() =~= old(mm).frames().push(zero_page())
            },
            r is Err ==> *final(mm) == *old(mm),
    {
        let pt_root = match mm.alloc_frame() {
            Ok(f) => f,
            Err(e) => {
                return Err(e);
            },
        };
        Ok(
            AddrSpace {
                base,
                size,
                pt_root,
                regions: Vec::new(),
                kernel_regions: Vec::new(),
            },
        )
    }

    /// Physical address of the root page table backing this space; the
    /// scheduler installs it on every context switch into the owning unit.
    pub fn page_table_root(&self) -> (r: u64)
        requires
            self.wf(),
        ensures
            r == self.pt_root_spec() * (PAGE_SIZE_4K as int),
    {
        (self.pt_root as u64) * (PAGE_SIZE_4K as u64)
    }

    /// Number of process-owned regions mapped in this space.
    pub fn region_count(&self) -> (r: usize)
        ensures
            r == self.regions_spec().len(),
    {
        self.regions.len()
    }

    /// Number of kernel mappings copied into this space.
    pub fn kernel_region_count(&self) -> (r: usize)
        ensures
            r == self.kernel_regions_spec().len(),
    {
        self.kernel_regions.len()
    }

    /// First address past the space's virtual range.
    pub fn end(&self) -> (r: u64)
        requires
            self.base_spec() + self.size_spec() <= u64::MAX,
        ensures
            r == self.base_spec() + self.size_spec(),
    {
        self.base + self.size
    }

    /// Insert the kernel's existing mappings into this space, so that kernel
    /// code and data stay reachable while a trap is handled. None of the
    /// copied mappings grants user-mode access.
    #[verifier::loop_isolation(false)]
    pub fn copy_mappings_from(&mut self, kernel: &AddrSpace)
        requires
            kernel.wf(),
            forall|i: int|
                0 <= i < kernel.regions_spec().len() ==> !(#[trigger] kernel.regions_spec()[i]).flags.user,
        ensures
            final(self).base_spec() == old(self).base_spec(),
            final(self).size_spec() == old(self).size_spec(),
            final(self).pt_root_spec() == old(self).pt_root_spec(),
            final(self).regions_spec() == old(self).regions_spec(),
            final(self).kernel_regions_spec().len() == old(self).kernel_regions_spec().len()
                + kernel.regions_spec().len(),
            forall|i: int|
                0 <= i < old(self).kernel_regions_spec().len() ==> #[trigger] final(self).kernel_regions_spec()[i] == old(self).kernel_regions_spec()[i],
            forall|i: int|
                0 <= i < kernel.regions_spec().len() ==> {
                    let kr = #[trigger] final(self).kernel_regions_spec()[old(self).kernel_regions_spec().len() + i];
                    &&& kr.start == kernel.regions_spec()[i].start
                    &&& kr.size == kernel.regions_spec()[i].size
                    &&& kr.flags == kernel.regions_spec()[i].flags
                    &&& !kr.flags.user
                },
            old(self).wf() ==> final(self).wf(),
    {
        let mut i: usize = 0;
        while i < kernel.regions.len()
            invariant
                i <= kernel.regions.len(),
                self.base == old(self).base,
                self.size == old(self).size,
                self.pt_root == old(self).pt_root,
                self.regions@ == old(self).regions@,
                self.kernel_regions@.len() == old(self).kernel_regions@.len() + i,
                forall|j: int|
                    0 <= j < old(self).kernel_regions@.len() ==> #[trigger] self.kernel_regions@[j]
                        == old(self).kernel_regions@[j],
                forall|j: int|
                    0 <= j < i ==> {
                        let kr = #[trigger] self.kernel_regions@[old(self).kernel_regions@.len()
                            + j];
                        &&& kr.start == kernel.regions@[j].start
                        &&& kr.size == kernel.regions@[j].size
                        &&& kr.flags == kernel.regions@[j].flags
                    },
            decreases kernel.regions.len() - i,
        {
            let src = &kernel.regions[i];
            self.kernel_regions.push(
                KernelRegion { start: src.start, size: src.size, flags: src.flags },
            );
            i = i + 1;
        }
    }

    /// Install one region of `size` bytes at `vaddr` with `flags`, backed by
    /// freshly allocated zeroed frames. Exactly one of the outcomes holds;
    /// on rejection neither the space nor the frame pool changes.
    #[verifier::loop_isolation(false)]
    pub fn map(&mut self, mm: &mut MemoryManager, vaddr: u64, size: u64, flags: MappingFlags) -> (r:
        Result<(), MappingError>)
        requires
            old(self).wf(),
            old(mm).wf(),
            old(self).backed_by(*old(mm)),
        ensures
            final(self).wf(),
            final(mm).wf(),
            final(self).backed_by(*final(mm)),
            final(mm).capacity() == old(mm).capacity(),
            final(self).base_spec() == old(self).base_spec(),
            final(self).size_spec() == old(self).size_spec(),
            final(self).pt_root_spec() == old(self).pt_root_spec(),
            final(self).kernel_regions_spec() == old(self).kernel_regions_spec(),
            r is Ok <==> old(self).can_map_range(vaddr as int, size as int) && old(mm).frames().len() + size as int / (PAGE_SIZE_4K as int) <= old(mm).capacity(),
            r == Err::<(), MappingError>(MappingError::Misaligned) <==> !aligned_range(
                vaddr as int,
                size as int,
            ),
            r == Err::<(), MappingError>(MappingError::OutOfRange) <==> aligned_range(
                vaddr as int,
                size as int,
            ) && !old(self).in_range(vaddr as int, size as int),
            r == Err::<(), MappingError>(MappingError::Overlap) <==> aligned_range(
                vaddr as int,
                size as int,
            ) && old(self).in_range(vaddr as int, size as int) && old(self).overlaps_existing(
                vaddr as int,
                size as int,
            ),
            r == Err::<(), MappingError>(MappingError::NoMemory) <==> old(self).can_map_range(
                vaddr as int,
                size as int,
            ) && old(mm).frames().len() + size as int / (PAGE_SIZE_4K as int) > old(mm).capacity(),
            r is Err ==> *final(self) == *old(self) && *final(mm) == *old(mm),
            r is Ok ==> {
                let nr = final(self).regions_spec().last();
                &&& final(self).regions_spec().len() == old(self).regions_spec().len() + 1
                &&& forall|i: int|
                    0 <= i < old(self).regions_spec().len() ==> #[trigger] final(self).regions_spec()[i] == old(self).regions_spec()[i]
                &&& nr.start == vaddr
                &&& nr.size == size
                &&& nr.flags == flags
                &&& nr.frames@.len() == size as int / (PAGE_SIZE_4K as int)
                &&& forall|k: int|
                    0 <= k < nr.frames@.len() ==> #[trigger] nr.frames@[k] == old(mm).frames().len() + k
                &&& final(mm).frames().len() == old(mm).frames().len() + size as int / (
                PAGE_SIZE_4K as int)
                &&& forall|i: int|
                    0 <= i < old(mm).frames().len() ==> #[trigger] final(mm).frames()[i] == old(mm).frames()[i]
                &&& forall|i: int|
                    old(mm).frames().len() <= i < final(mm).frames().len()
                        ==> #[trigger] final(mm).frames()[i] == zero_page()
                &&& final(self).mapped(vaddr as int)
            },
    {
        if !(vaddr % (PAGE_SIZE_4K as u64) == 0 && size % (PAGE_SIZE_4K as u64) == 0 && size > 0) {
            return Err(MappingError::Misaligned);
        }
        if !(self.base <= vaddr && size <= self.size && vaddr - self.base <= self.size - size) {
            return Err(MappingError::OutOfRange);
        }
        let mut i: usize = 0;
        while i < self.regions.len()
            invariant
                i <= self.regions_spec().len(),
                forall|j: int|
                    0 <= j < i ==> !ranges_overlap(
                        vaddr as int,
                        size as int,
                        (#[trigger] self.regions_spec()[j]).start as int,
                        self.regions_spec()[j].size as int,
                    ),
            decreases self.regions_spec().len() - i,
        {
            let rg = &self.regions[i];
            proof {
                assert(region_wf(self.regions_spec()[i as int]));
                assert(self.in_range(
                    self.regions_spec()[i as int].start as int,
                    self.regions_spec()[i as int].size as int,
                ));
            }
            if vaddr < rg.start + rg.size && rg.start < vaddr + size {
                proof {
                    assert(self.overlaps_existing(vaddr as int, size as int)) by {
                        assert(ranges_overlap(
                            vaddr as int,
                            size as int,
                            self.regions_spec()[i as int].start as int,
                            self.regions_spec()[i as int].size as int,
                        ));
                    }
                }
                return Err(MappingError::Overlap);
            }
            i = i + 1;
        }
        proof {
            assert(!self.overlaps_existing(vaddr as int, size as int));
        }
        let npages_wide = size / (PAGE_SIZE_4K as u64);
        let have = mm.frame_count();
        let cap = mm.frame_capacity();
        if npages_wide > (cap - have) as u64 {
            return Err(MappingError::NoMemory);
        }
        let npages = npages_wide as usize;
        let ghost first_frame = mm.frames().len() as int;
        let mut frames: Vec<usize> = Vec::new();
        let mut k: usize = 0;
        while k < npages
            invariant
                k <= npages,
                mm.wf(),
                mm.capacity() == old(mm).capacity(),
                first_frame == old(mm).frames().len(),
                first_frame + npages <= mm.capacity(),
                mm.frames().len() == first_frame + k,
                forall|j: int|
                    0 <= j < first_frame ==> #[trigger] mm.frames()[j] == old(mm).frames()[j],
                forall|j: int|
                    first_frame <= j < first_frame + k ==> #[trigger] mm.frames()[j] == zero_page(),
                frames@.len() == k,
                forall|j: int| 0 <= j < k ==> #[trigger] frames@[j] == first_frame + j,
            decreases npages - k,
        {
            let f = match mm.alloc_frame() {
                Ok(f) => f,
                Err(_) => {
                    proof {
                        assert(false);
                    }
                    0
                },
            };
            frames.push(f);
            k = k + 1;
        }
        let region = MemRegion { start: vaddr, size, flags, frames };
        self.regions.push(region);
        proof {
            let n = self.regions_spec().len() - 1;
            assert(npages as int == size as int / (PAGE_SIZE_4K as int));
            assert forall|j: int| 0 <= j < self.regions_spec()[n].frames@.len() implies ((
            self.regions_spec()[n].frames@[j]) + 1) * (PAGE_SIZE_4K as int) <= u64::MAX by {
                assert(self.regions_spec()[n].frames@[j] == first_frame + j);
                assert(first_frame + j + 1 <= mm.capacity());
            }
            assert(region_wf(self.regions_spec()[n]));
            assert(self.mapped(vaddr as int)) by {
                assert(region_contains(self.regions_spec()[n], vaddr as int));
            }
            assert forall|a: int, b: int|
                0 <= a < self.regions_spec().len() && 0 <= b < self.regions_spec().len() && a
                    != b implies !ranges_overlap(
                (self.regions_spec()[a]).start as int,
                self.regions_spec()[a].size as int,
                (self.regions_spec()[b]).start as int,
                self.regions_spec()[b].size as int,
            ) by {
                if a == n {
                    assert(!ranges_overlap(
                        vaddr as int,
                        size as int,
                        old(self).regions_spec()[b].start as int,
                        old(self).regions_spec()[b].size as int,
                    ));
                } else if b == n {
                    assert(!ranges_overlap(
                        vaddr as int,
                        size as int,
                        old(self).regions_spec()[a].start as int,
                        old(self).regions_spec()[a].size as int,
                    ));
                }
            }
            assert forall|ri: int, kk: int|
                0 <= ri < self.regions_spec().len() && 0 <= kk < self.regions_spec()[ri].frames@.len()
                implies (self.regions_spec()[ri].frames@[kk]) < mm.frames().len() by {
                if ri == n {
                    assert(self.regions_spec()[n].frames@[kk] == first_frame + kk);
                } else {
                    assert(self.regions_spec()[ri] == old(self).regions_spec()[ri]);
                    assert(old(self).regions_spec()[ri].frames@[kk] < old(mm).frames().len());
                }
            }
        }
        Ok(())
    }

    /// Resolve a mapped virtual address to the physical address of its
    /// backing. Returns nothing exactly when the address is unmapped.
    #[verifier::loop_isolation(false)]
    pub fn translate(&self, vaddr: u64) -> (r: Option<u64>)
        requires
            self.wf(),
        ensures
            r is Some <==> self.mapped(vaddr as int),
            r matches Some(p) ==> forall|i: int|
                0 <= i < self.regions_spec().len() && region_contains(
                    #[trigger] self.regions_spec()[i],
                    vaddr as int,
                ) ==> p == region_paddr(self.regions_spec()[i], vaddr as int),
    {
        let mut i: usize = 0;
        while i < self.regions.len()
            invariant
                i <= self.regions_spec().len(),
                forall|j: int|
                    0 <= j < i ==> !region_contains(#[trigger] self.regions_spec()[j], vaddr as int),
            decreases self.regions_spec().len() - i,
        {
            let rg = &self.regions[i];
            let ghost ii = i as int;
            if rg.start <= vaddr && vaddr - rg.start < rg.size {
                let off = vaddr - rg.start;
                proof {
                    assert(region_wf(self.regions_spec()[ii]));
                    vstd::arithmetic::div_mod::lemma_fundamental_div_mod(
                        off as int,
                        PAGE_SIZE_4K as int,
                    );
                    vstd::arithmetic::div_mod::lemma_fundamental_div_mod(
                        rg.size as int,
                        PAGE_SIZE_4K as int,
                    );
                    assert(off as int / (PAGE_SIZE_4K as int) < rg.frames@.len()) by (
                    nonlinear_arith)
                        requires
                            off as int == (PAGE_SIZE_4K as int) * (off as int / (
                            PAGE_SIZE_4K as int)) + off as int % (PAGE_SIZE_4K as int),
                            0 <= off as int % (PAGE_SIZE_4K as int),
                            rg.size as int == (PAGE_SIZE_4K as int) * (rg.size as int / (
                            PAGE_SIZE_4K as int)) + rg.size as int % (PAGE_SIZE_4K as int),
                            rg.size as int % (PAGE_SIZE_4K as int) == 0,
                            rg.frames@.len() == rg.size as int / (PAGE_SIZE_4K as int),
                            off < rg.size,
                            PAGE_SIZE_4K == 0x1000,
                    ;
                }
                let nframes = rg.frames.len();
                let page_idx = (off / (PAGE_SIZE_4K as u64)) as usize;
                proof {
                    assert(off as int / (PAGE_SIZE_4K as int) < nframes as int);
                    assert(page_idx as int == off as int / (PAGE_SIZE_4K as int));
                    assert((self.regions_spec()[ii].frames@[page_idx as int] + 1) * (
                    PAGE_SIZE_4K as int) <= u64::MAX);
                }
                let f = rg.frames[page_idx];
                let paddr = (f as u64) * (PAGE_SIZE_4K as u64) + off % (PAGE_SIZE_4K as u64);
                proof {
                    assert(paddr as int == region_paddr(self.regions_spec()[ii], vaddr as int));
                    assert forall|j: int|
                        0 <= j < self.regions_spec().len() && region_contains(
                            #[trigger] self.regions_spec()[j],
                            vaddr as int,
                        ) implies paddr as int == region_paddr(
                        self.regions_spec()[j],
                        vaddr as int,
                    ) by {
                        if j != ii {
                            assert(ranges_overlap(
                                self.regions_spec()[ii].start as int,
                                self.regions_spec()[ii].size as int,
                                self.regions_spec()[j].start as int,
                                self.regions_spec()[j].size as int,
                            ));
                            assert(false);
                        }
                    }
                    assert(self.mapped(vaddr as int)) by {
                        assert(region_contains(self.regions_spec()[ii], vaddr as int));
                    }
                }
                return Some(paddr);
            }
            i = i + 1;
        }
        None
    }
}

/// `[vaddr, vaddr+size)` is page-aligned and non-empty.
pub open spec fn aligned_range(vaddr: int, size: int) -> bool {
    &&& vaddr % (PAGE_SIZE_4K as int) == 0
    &&& size % (PAGE_SIZE_4K as int) == 0
    &&& size > 0
}

/// Mapping a range that intersects an existing region is always rejected:
/// no such range can be installed.
pub proof fn lemma_overlapping_map_rejected(s: AddrSpace, vaddr: int, size: int, i: int)
    requires
        0 <= i < s.regions_spec().len(),
        ranges_overlap(
            vaddr,
            size,
            s.regions_spec()[i].start as int,
            s.regions_spec()[i].size as int,
        ),
    ensures
        !s.can_map_range(vaddr, size),
{
    assert(s.overlaps_existing(vaddr, size));
}

/// Address spaces whose backing frames were drawn from the frame pool at
/// disjoint times share no physical backing: every frame of `s1` (its root
/// page table included) differs from every frame of `s2`.
pub proof fn lemma_independent_address_spaces(s1: AddrSpace, s2: AddrSpace, n: int)
    requires
        s1.frames_below(n),
        s2.frames_at_or_above(n),
    ensures
        forall|f: int| s1.uses_frame(f) ==> !s2.uses_frame(f),
{
}

} // verus!
