//! The bookkeeping behind the runtime's custom-platform virtual-memory hooks
//! (`wasmtime_mmap_new` / `wasmtime_munmap`) on a single-hart, non-reentrant confined
//! program.
//!
//! - [`FrameArena`]: a bounded pool of granted, initially unmapped 2 MiB frames, mapped on
//!   demand at a reserved virtual range. Regions are handed out by a bump index that is never
//!   rewound; a freed allocation's frames are unmapped but its regions are not reused. This
//!   type decides which regions an allocation takes and which it gives back; mapping and
//!   unmapping them is the kernel's work, done by the caller.
//! - [`BumpArena`]: the fallback when no frames are granted — page-rounded bump allocation
//!   inside one fixed buffer, never reclaimed.

use vstd::prelude::*;

verus! {

/// The platform's page size.
pub const PAGE_SIZE: usize = 4096;

/// Base of the reserved virtual range the granted frames are mapped at.
pub const ARENA_VADDR: usize = 0x8820_0000;

/// Size of one granted frame (a megapage).
pub const MEGAPAGE_BYTES: usize = 0x20_0000;

/// How many frames the loader grants, at consecutive capability slots.
pub const REGIONS: usize = 2;

/// Capability slot of the first granted frame.
pub const ARENA_FRAME_CPTR_BASE: usize = 7;

/// Capability slot of this program's own VSpace, the target of every map and unmap.
pub const SELF_VSPACE_CPTR: usize = 6;

/// Size of the fallback arena.
pub const ARENA_BYTES: usize = 256 * 1024;

/// Virtual address at which region `region` is mapped.
pub open spec fn region_vaddr(region: int) -> int {
    ARENA_VADDR + region * MEGAPAGE_BYTES
}

/// The region whose mapping starts at `vaddr` (for a `vaddr` that starts one).
pub open spec fn region_at(vaddr: int) -> int {
    (vaddr - ARENA_VADDR) / (MEGAPAGE_BYTES as int)
}

/// How many regions an allocation of `size` bytes takes: `size` rounded up to whole
/// megapages, and at least one.
pub open spec fn regions_for(size: nat) -> nat {
    let whole = size / (MEGAPAGE_BYTES as nat) + if size % (MEGAPAGE_BYTES as nat) == 0 { 0nat } else { 1nat };
    if whole == 0 { 1 } else { whole }
}

proof fn lemma_region_at_vaddr(region: int)
    requires
        0 <= region,
    ensures
        region_at(region_vaddr(region)) == region,
{
    assert((region * MEGAPAGE_BYTES) / (MEGAPAGE_BYTES as int) == region) by (nonlinear_arith);
}

/// The virtual address region `region` is mapped at.
pub fn vaddr_of(region: usize) -> (vaddr: usize)
    requires
        region_vaddr(region as int) <= usize::MAX,
    ensures
        vaddr == region_vaddr(region as int),
{
    ARENA_VADDR + region * MEGAPAGE_BYTES
}

/// The capability slot of the frame that backs region `region`.
pub fn frame_cptr_of(region: usize) -> (cptr: usize)
    requires
        ARENA_FRAME_CPTR_BASE + region <= usize::MAX,
    ensures
        cptr == ARENA_FRAME_CPTR_BASE + region,
{
    ARENA_FRAME_CPTR_BASE + region
}

/// Which granted regions have been handed out, and which allocations are live.
///
/// One slot per live allocation: a slot with count 0 is free; an occupied slot holds the
/// allocation's base address and how many consecutive regions it took.
pub struct FrameArena {
    alloc_vaddr: [usize; REGIONS],
    alloc_count: [usize; REGIONS],
    next_region: usize,
}

impl FrameArena {
    /// The allocation slots as (base address, region count); count 0 is a free slot.
    pub closed spec fn slots(&self) -> Seq<(usize, usize)> {
        Seq::new(REGIONS as nat, |i: int| (self.alloc_vaddr@[i], self.alloc_count@[i]))
    }

    /// The first region no allocation has taken yet.
    pub closed spec fn next_region(&self) -> nat {
        self.next_region as nat
    }

    /// Slot `i` holds a live allocation.
    pub open spec fn occupied(&self, i: int) -> bool {
        self.slots()[i].1 != 0
    }

    /// The first region of the live allocation in slot `i`.
    pub open spec fn first_region(&self, i: int) -> int {
        region_at(self.slots()[i].0 as int)
    }

    /// The arena's invariant: the bump index stays within the granted regions; every live
    /// allocation starts at a region's address, takes at least one region, and lies below the
    /// bump index; and no two live allocations share a region.
    pub open spec fn wf(&self) -> bool {
        &&& self.slots().len() == REGIONS
        &&& self.next_region() <= REGIONS
        &&& forall|i: int| 0 <= i < REGIONS && #[trigger] self.occupied(i) ==> {
            &&& 0 <= self.first_region(i)
            &&& self.slots()[i].0 == region_vaddr(self.first_region(i))
            &&& self.first_region(i) + self.slots()[i].1 <= self.next_region()
        }
        &&& forall|i: int, j: int| 0 <= i < REGIONS && 0 <= j < REGIONS && i != j
            && #[trigger] self.occupied(i) && #[trigger] self.occupied(j) ==> {
            ||| self.first_region(i) + self.slots()[i].1 <= self.first_region(j)
            ||| self.first_region(j) + self.slots()[j].1 <= self.first_region(i)
        }
    }

    /// The first region no allocation has taken yet.
    pub fn next_region_index(&self) -> (next: usize)
        ensures
            next == self.next_region(),
    {
        self.next_region
    }

    /// An arena in which no region has been handed out.
    pub fn new() -> (arena: Self)
        ensures
            arena.wf(),
            arena.next_region() == 0,
            forall|i: int| 0 <= i < REGIONS ==> !#[trigger] arena.occupied(i),
    {
        FrameArena { alloc_vaddr: [0usize; REGIONS], alloc_count: [0usize; REGIONS], next_region: 0 }
    }

    /// Claims the next `regions_for(size)` regions for an allocation of `size` bytes and
    /// returns the first one's base address, or `None` when the granted pool does not have
    /// that many regions left. The regions claimed are those from the old bump index up to
    /// the new one; the caller maps each of them before use.
    pub fn allocate(&mut self, size: usize) -> (res: Option<usize>)
        requires
            old(self).wf(),
        ensures
            final(self).wf(),
            old(self).next_region() + regions_for(size as nat) <= REGIONS ==> {
                &&& res == Some(region_vaddr(old(self).next_region() as int) as usize)
                &&& final(self).next_region() == old(self).next_region() + regions_for(size as nat)
                &&& exists|i: int| 0 <= i < REGIONS && !old(self).occupied(i)
                    && final(self).slots() == old(self).slots().update(
                        i,
                        (region_vaddr(old(self).next_region() as int) as usize, regions_for(size as nat) as usize),
                    )
            },
            old(self).next_region() + regions_for(size as nat) > REGIONS ==> {
                &&& res is None
                &&& final(self).next_region() == old(self).next_region()
                &&& final(self).slots() == old(self).slots()
            },
    {
        let whole = size / MEGAPAGE_BYTES + if size % MEGAPAGE_BYTES == 0 { 0 } else { 1 };
        let count = if whole == 0 { 1 } else { whole };
        let start = self.next_region;
        let end = match start.checked_add(count) {
            Some(end) => end,
            None => return None,
        };
        if end > REGIONS {
            return None;
        }
        self.next_region = end;

        let mut slot: usize = 0;
        while slot < REGIONS && self.alloc_count[slot] != 0
            invariant
                0 <= slot <= REGIONS,
                self.alloc_count@.len() == REGIONS,
                forall|k: int| 0 <= k < slot ==> self.alloc_count@[k] != 0,
            decreases REGIONS - slot,
        {
            slot = slot + 1;
        }
        if slot == REGIONS {
            proof {
                assert(old(self).occupied(0) && old(self).occupied(1));
                assert(false);
            }
            return None;
        }
        let vaddr_base = vaddr_of(start);
        self.alloc_vaddr[slot] = vaddr_base;
        self.alloc_count[slot] = count;
        proof {
            lemma_region_at_vaddr(start as int);
            assert(count == regions_for(size as nat));
            assert(old(self).slots()[slot as int] == (old(self).alloc_vaddr@[slot as int], old(self).alloc_count@[slot as int]));
            assert(!old(self).occupied(slot as int));
            assert(self.slots() =~= old(self).slots().update(slot as int, (vaddr_base, count)));
            assert(self.first_region(slot as int) == start);
            assert forall|i: int| 0 <= i < REGIONS && i != slot && #[trigger] self.occupied(i) implies
                old(self).occupied(i) && self.first_region(i) + self.slots()[i].1 <= start by {
                assert(self.slots()[i] == old(self).slots()[i]);
            }
            assert(self.wf());
        }
        Some(vaddr_base)
    }

    /// Gives back the live allocation whose base address is `ptr`, returning the regions it
    /// took (first region, count) for the caller to unmap. A `ptr` this arena never handed
    /// out, or one already given back, changes nothing and returns `None`. The regions are
    /// not handed out again.
    pub fn dealloc(&mut self, ptr: usize) -> (res: Option<(usize, usize)>)
        requires
            old(self).wf(),
        ensures
            final(self).wf(),
            final(self).next_region() == old(self).next_region(),
            match res {
                Some((first, count)) => exists|i: int| {
                    &&& 0 <= i < REGIONS
                    &&& #[trigger] old(self).occupied(i)
                    &&& old(self).slots()[i] == (ptr, count)
                    &&& first == old(self).first_region(i)
                    &&& final(self).slots() == old(self).slots().update(i, (0usize, 0usize))
                },
                None => {
                    &&& forall|i: int| 0 <= i < REGIONS && #[trigger] old(self).occupied(i)
                        ==> old(self).slots()[i].0 != ptr
                    &&& final(self).slots() == old(self).slots()
                },
            },
    {
        let mut slot: usize = 0;
        while slot < REGIONS && !(self.alloc_count[slot] != 0 && self.alloc_vaddr[slot] == ptr)
            invariant
                0 <= slot <= REGIONS,
                self == old(self),
                self.wf(),
                forall|k: int| 0 <= k < slot && #[trigger] self.occupied(k) ==> self.slots()[k].0 != ptr,
            decreases REGIONS - slot,
        {
            proof {
                assert(self.slots()[slot as int] == (self.alloc_vaddr@[slot as int], self.alloc_count@[slot as int]));
            }
            slot = slot + 1;
        }
        if slot == REGIONS {
            return None;
        }
        let count = self.alloc_count[slot];
        proof {
            assert(self.slots()[slot as int] == (self.alloc_vaddr@[slot as int], self.alloc_count@[slot as int]));
            assert(self.occupied(slot as int));
        }
        let first = (ptr - ARENA_VADDR) / MEGAPAGE_BYTES;
        self.alloc_vaddr[slot] = 0;
        self.alloc_count[slot] = 0;
        proof {
            assert(self.slots() =~= old(self).slots().update(slot as int, (0usize, 0usize)));
            assert forall|i: int| 0 <= i < REGIONS && #[trigger] self.occupied(i) implies old(self).occupied(i) && i != slot by {
            }
        }
        Some((first, count))
    }
}

/// The fallback arena: page-rounded bump allocation inside one buffer of [`ARENA_BYTES`]
/// that starts at a page-aligned address. Nothing is ever reclaimed.
pub struct BumpArena {
    base: usize,
    next: usize,
}

/// `size` rounded up to a whole number of pages.
pub open spec fn page_round(size: nat) -> nat {
    (size + PAGE_SIZE - 1) as nat / (PAGE_SIZE as nat) * (PAGE_SIZE as nat)
}

impl BumpArena {
    pub closed spec fn base(&self) -> nat {
        self.base as nat
    }

    /// How many bytes of the buffer have been handed out.
    pub closed spec fn used(&self) -> nat {
        self.next as nat
    }

    /// The arena's invariant: the buffer is page-aligned and fits the address space, and what
    /// has been handed out is a whole number of pages within it.
    pub open spec fn wf(&self) -> bool {
        &&& self.base() % (PAGE_SIZE as nat) == 0
        &&& self.base() + ARENA_BYTES <= usize::MAX
        &&& self.used() <= ARENA_BYTES
        &&& self.used() % (PAGE_SIZE as nat) == 0
    }

    /// An arena over the buffer at `base`, nothing handed out yet.
    pub fn new(base: usize) -> (arena: Self)
        requires
            base % PAGE_SIZE == 0,
            base + ARENA_BYTES <= usize::MAX,
        ensures
            arena.wf(),
            arena.base() == base,
            arena.used() == 0,
    {
        BumpArena { base, next: 0 }
    }

    /// The buffer's start address.
    pub fn arena_base(&self) -> (base: usize)
        ensures
            base == self.base(),
    {
        self.base
    }

    /// Bumps `size` bytes, rounded up to a page, off the arena and returns their address; or
    /// `None`, changing nothing, when they do not fit in what is left.
    pub fn allocate(&mut self, size: usize) -> (res: Option<usize>)
        requires
            old(self).wf(),
        ensures
            final(self).wf(),
            final(self).base() == old(self).base(),
            old(self).used() + page_round(size as nat) <= ARENA_BYTES ==> {
                &&& res == Some((old(self).base() + old(self).used()) as usize)
                &&& final(self).used() == old(self).used() + page_round(size as nat)
            },
            old(self).used() + page_round(size as nat) > ARENA_BYTES ==> {
                &&& res is None
                &&& final(self).used() == old(self).used()
            },
            res matches Some(addr) ==> addr % PAGE_SIZE == 0,
    {
        if size > usize::MAX - (PAGE_SIZE - 1) {
            proof {
                assert(page_round(size as nat) > ARENA_BYTES) by (nonlinear_arith)
                    requires
                        size > usize::MAX - (PAGE_SIZE - 1),
                        PAGE_SIZE == 4096,
                        ARENA_BYTES == 262144,
                        usize::MAX >= 0xffff_ffff,
                ;
            }
            return None;
        }
        let padded = size + (PAGE_SIZE - 1);
        let rounded = padded - padded % PAGE_SIZE;
        proof {
            assert(rounded == page_round(size as nat)) by (nonlinear_arith)
                requires
                    padded == size + PAGE_SIZE - 1,
                    rounded == padded - padded % PAGE_SIZE,
                    PAGE_SIZE == 4096,
            ;
            assert(rounded % PAGE_SIZE == 0) by (nonlinear_arith)
                requires
                    rounded == padded - padded % PAGE_SIZE,
                    PAGE_SIZE == 4096,
            ;
        }
        let off = self.next;
        if rounded > ARENA_BYTES - off {
            return None;
        }
        self.next = off + rounded;
        proof {
            assert((self.base + off) % (PAGE_SIZE as int) == 0) by (nonlinear_arith)
                requires
                    self.base % PAGE_SIZE == 0,
                    off % PAGE_SIZE == 0,
                    PAGE_SIZE == 4096,
            ;
            assert((off + rounded) % (PAGE_SIZE as int) == 0) by (nonlinear_arith)
                requires
                    rounded % PAGE_SIZE == 0,
                    off % PAGE_SIZE == 0,
                    PAGE_SIZE == 4096,
            ;
        }
        Some(self.base + off)
    }
}

} // verus!
