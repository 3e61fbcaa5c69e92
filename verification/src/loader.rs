//! The payload loader: place a flat binary image, already read from the file
//! store, into a freshly mapped, user-accessible, executable page at the
//! fixed load address. The image needs no header and no relocation; the load
//! address is the entry point. The page holds the image bytes followed by
//! zero padding up to the page boundary.

use vstd::prelude::*;

use crate::aspace::{AddrSpace, MappingFlags};
use crate::mem::MemoryManager;
use crate::{APP_ENTRY, PAGE_SIZE_4K};

verus! {

/// Why a load failed. Loading is atomic: on failure neither the address
/// space nor physical memory changes.
#[derive(Clone, Copy, PartialEq, Eq, Structural, Debug)]
pub enum LoadError {
    /// The image's path could not be opened in the file store. Reported by
    /// the caller that reads the image; the in-memory load itself cannot
    /// produce it.
    NotFound,
    /// The code page could not be allocated or mapped.
    OutOfMemory,
}

/// The permissions of the code page: readable, writable, executable, user-
/// accessible. Write permission is needed at load time for the copy itself;
/// dropping it afterwards is a hardening opportunity, not done here.
pub open spec fn code_flags() -> MappingFlags {
    MappingFlags { read: true, write: true, execute: true, user: true }
}

/// The byte contents the code page must hold after a load: the image,
/// padded with zero bytes to the page boundary.
pub open spec fn loaded_page(image: Seq<u8>) -> Seq<u8> {
    image + Seq::new((PAGE_SIZE_4K - image.len()) as nat, |i: int| 0u8)
}

/// Map one user-accessible executable page at the fixed load address and
/// copy the staged image bytes into its physical backing. Succeeds exactly
/// when that page can be mapped and one frame is free; afterwards the page's
/// backing holds the image followed by zero padding.
pub fn load_user_app(image: &Vec<u8>, uspace: &mut AddrSpace, mm: &mut MemoryManager) -> (r:
    Result<(), LoadError>)
    requires
        image@.len() <= PAGE_SIZE_4K,
        old(uspace).wf(),
        old(mm).wf(),
        old(uspace).backed_by(*old(mm)),
    ensures
        final(uspace).wf(),
        final(mm).wf(),
        final(uspace).backed_by(*final(mm)),
        final(mm).capacity() == old(mm).capacity(),
        final(uspace).base_spec() == old(uspace).base_spec(),
        final(uspace).size_spec() == old(uspace).size_spec(),
        final(uspace).pt_root_spec() == old(uspace).pt_root_spec(),
        final(uspace).kernel_regions_spec() == old(uspace).kernel_regions_spec(),
        r is Ok <==> old(uspace).can_map_range(APP_ENTRY as int, PAGE_SIZE_4K as int) && old(mm).frames().len() < old(mm).capacity(),
        r is Err ==> r == Err::<(), LoadError>(LoadError::OutOfMemory) && *final(uspace) == *old(uspace) && *final(mm) == *old(mm),
        r is Ok ==> {
            let nr = final(uspace).regions_spec().last();
            &&& final(uspace).regions_spec().len() == old(uspace).regions_spec().len() + 1
            &&& forall|i: int|
                0 <= i < old(uspace).regions_spec().len() ==> #[trigger] final(uspace).regions_spec()[i] == old(uspace).regions_spec()[i]
            &&& nr.start == APP_ENTRY
            &&& nr.size == PAGE_SIZE_4K
            &&& nr.flags == code_flags()
            &&& nr.frames@.len() == 1
            &&& nr.frames@[0] == old(mm).frames().len()
            &&& final(mm).frames().len() == old(mm).frames().len() + 1
            &&& forall|i: int|
                0 <= i < old(mm).frames().len() ==> #[trigger] final(mm).frames()[i] == old(mm).frames()[i]
            &&& final(mm).frames()[nr.frames@[0] as int] =~= loaded_page(image@)
            &&& final(uspace).mapped(APP_ENTRY as int)
        },
{
    let flags = MappingFlags { read: true, write: true, execute: true, user: true };
    match uspace.map(mm, APP_ENTRY, PAGE_SIZE_4K as u64, flags) {
        Ok(_) => {},
        Err(_) => {
            return Err(LoadError::OutOfMemory);
        },
    }
    let mut page: Vec<u8> = Vec::new();
    let mut i: usize = 0;
    while i < image.len()
        invariant
            i <= image@.len(),
            page@ =~= image@.subrange(0, i as int),
        decreases image@.len() - i,
    {
        page.push(image[i]);
        i = i + 1;
        proof {
            assert(page@ =~= image@.subrange(0, i as int));
        }
    }
    proof {
        assert(page@ =~= image@);
    }
    let mut j: usize = image.len();
    while j < PAGE_SIZE_4K
        invariant
            image@.len() <= j <= PAGE_SIZE_4K,
            page@ =~= image@ + Seq::new((j - image@.len()) as nat, |q: int| 0u8),
        decreases PAGE_SIZE_4K - j,
    {
        page.push(0u8);
        j = j + 1;
        proof {
            assert(page@ =~= image@ + Seq::new((j - image@.len()) as nat, |q: int| 0u8));
        }
    }
    let paddr = match uspace.translate(APP_ENTRY) {
        Some(p) => p,
        None => {
            proof {
                assert(false);
            }
            0
        },
    };
    let ghost nf = old(mm).frames().len() as int;
    proof {
        let n = uspace.regions_spec().len() - 1;
        assert(crate::aspace::region_contains(uspace.regions_spec()[n], APP_ENTRY as int));
        assert(paddr as int == crate::aspace::region_paddr(
            uspace.regions_spec()[n],
            APP_ENTRY as int,
        ));
        assert(paddr as int == nf * (PAGE_SIZE_4K as int));
        assert(paddr as int / (PAGE_SIZE_4K as int) == nf) by (nonlinear_arith)
            requires
                paddr as int == nf * (PAGE_SIZE_4K as int),
                nf >= 0,
                PAGE_SIZE_4K == 0x1000,
        ;
    }
    let frame = (paddr / (PAGE_SIZE_4K as u64)) as usize;
    mm.write_frame(frame, page);
    Ok(())
}

} // verus!
