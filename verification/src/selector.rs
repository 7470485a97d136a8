//! First-fit choice of the heap arena among the regions of the memory map.
//!
//! A region is chosen where it is usable, starts at or above 1 MiB, has its
//! first byte mapped, and holds at least 32 MiB. The first such region in map
//! order wins. Only the first byte is probed: the rest of the region is taken
//! to be mapped like its start.

use vstd::prelude::*;

use crate::memory_map::MemoryRegion;

verus! {

/// Regions that start below this address hold legacy and boot structures and
/// are never chosen.
pub const LOW_MEMORY_LIMIT: u64 = 0x100000;

/// The smallest arena worth choosing: 32 MiB.
pub const MIN_HEAP_BYTES: usize = 0x2000000;

/// The arena chosen for the heap.
#[derive(Clone, Copy, Debug, PartialEq, Eq, Structural)]
pub struct HeapArea {
    /// Address of the first byte.
    pub base: usize,
    /// Number of bytes.
    pub size: usize,
}

impl HeapArea {
    /// One past the last byte of the arena.
    pub open spec fn end(self) -> int {
        self.base + self.size
    }

    /// The arena ends inside the address space.
    pub open spec fn addressable(self) -> bool {
        self.end() <= usize::MAX
    }

    /// Whether the arena ends inside the address space.
    pub fn is_addressable(&self) -> (b: bool)
        ensures
            b == self.addressable(),
    {
        self.base.checked_add(self.size).is_some()
    }
}

/// The arena that a region offers: its extent in machine words.
pub open spec fn area_of(region: MemoryRegion) -> HeapArea {
    HeapArea { base: region.base as usize, size: region.length as usize }
}

/// The address whose mapping decides over the region: its first byte.
pub open spec fn probe_address(region: MemoryRegion) -> u64 {
    area_of(region).base as u64
}

/// The region passes the checks that need no look at the page tables, so
/// that its first byte has to be probed.
pub open spec fn needs_probe(region: MemoryRegion) -> bool {
    region.usable() && region.base >= LOW_MEMORY_LIMIT
}

/// The region can serve as the arena, given whether its first byte is mapped.
pub open spec fn qualifies(region: MemoryRegion, mapped: bool) -> bool {
    needs_probe(region) && mapped && area_of(region).size >= MIN_HEAP_BYTES
}

/// Region `j` of the map qualifies under the mapping `mapped`.
pub open spec fn passes(regions: Seq<MemoryRegion>, mapped: spec_fn(u64) -> bool, j: int) -> bool {
    qualifies(regions[j], mapped(probe_address(regions[j])))
}

/// Region `k` is the first of the map that qualifies.
pub open spec fn first_fit(
    regions: Seq<MemoryRegion>,
    mapped: spec_fn(u64) -> bool,
    k: int,
) -> bool {
    &&& 0 <= k < regions.len()
    &&& passes(regions, mapped, k)
    &&& forall|j: int| 0 <= j < k ==> !#[trigger] passes(regions, mapped, j)
}

/// `choice` is the outcome of first-fit selection among the first `n`
/// regions: the arena of the first region that qualifies, or `None` where
/// none of them does.
pub open spec fn selects_among(
    regions: Seq<MemoryRegion>,
    mapped: spec_fn(u64) -> bool,
    n: int,
    choice: Option<HeapArea>,
) -> bool {
    match choice {
        Some(area) => exists|k: int|
            k < n && #[trigger] first_fit(regions, mapped, k) && area == area_of(regions[k]),
        None => forall|j: int| 0 <= j < n ==> !#[trigger] passes(regions, mapped, j),
    }
}

/// `choice` is the outcome of first-fit selection over the whole map.
pub open spec fn selects(
    regions: Seq<MemoryRegion>,
    mapped: spec_fn(u64) -> bool,
    choice: Option<HeapArea>,
) -> bool {
    selects_among(regions, mapped, regions.len() as int, choice)
}

/// What a selection that stands at `state` becomes when `region` is offered.
pub open spec fn offer_spec(
    state: Option<HeapArea>,
    region: MemoryRegion,
    mapped: bool,
) -> Option<HeapArea> {
    if state is Some {
        state
    } else if qualifies(region, mapped) {
        Some(area_of(region))
    } else {
        None
    }
}

/// Offering the regions in map order keeps a selection at the first-fit
/// choice among the regions offered so far.
pub proof fn lemma_offer_extends(
    regions: Seq<MemoryRegion>,
    mapped: spec_fn(u64) -> bool,
    n: int,
    choice: Option<HeapArea>,
)
    requires
        0 <= n < regions.len(),
        selects_among(regions, mapped, n, choice),
    ensures
        selects_among(
            regions,
            mapped,
            n + 1,
            offer_spec(choice, regions[n], mapped(probe_address(regions[n]))),
        ),
{
    match choice {
        Some(area) => {
            let k = choose|k: int|
                k < n && #[trigger] first_fit(regions, mapped, k) && area == area_of(regions[k]);
        },
        None => {
            if passes(regions, mapped, n) {
                assert(first_fit(regions, mapped, n));
            } else {
                assert forall|j: int| 0 <= j < n + 1 implies !#[trigger] passes(
                    regions,
                    mapped,
                    j,
                ) by {}
            }
        },
    }
}

/// What turns a region down: that it is not usable, whatever its size; that
/// it starts below 1 MiB; that its first byte is not mapped; that it holds
/// less than 32 MiB, be it a single byte less. A region that is usable,
/// starts at or above 1 MiB, has its first byte mapped and holds 32 MiB or
/// more, up to what a machine word can count, is not turned down.
pub proof fn lemma_rejections(region: MemoryRegion, mapped: bool)
    ensures
        !region.usable() ==> !qualifies(region, mapped),
        region.base < LOW_MEMORY_LIMIT ==> !qualifies(region, mapped),
        !mapped ==> !qualifies(region, mapped),
        region.length < MIN_HEAP_BYTES ==> !qualifies(region, mapped),
        region.length == MIN_HEAP_BYTES - 1 ==> !qualifies(region, mapped),
        region.usable() && region.base >= LOW_MEMORY_LIMIT && mapped && MIN_HEAP_BYTES
            <= region.length <= usize::MAX ==> qualifies(region, mapped),
        !qualifies(region, mapped) ==> offer_spec(None, region, mapped) is None,
{
}

/// A region that is turned down is never the one chosen: the region that
/// first-fit selection settles on is usable, starts at or above 1 MiB, has
/// its first byte mapped and holds at least 32 MiB.
pub proof fn lemma_chosen_region_qualifies(
    regions: Seq<MemoryRegion>,
    mapped: spec_fn(u64) -> bool,
    choice: Option<HeapArea>,
)
    requires
        selects(regions, mapped, choice),
    ensures
        choice matches Some(area) ==> exists|k: int|
            {
                &&& 0 <= k < regions.len()
                &&& area == area_of(#[trigger] regions[k])
                &&& regions[k].usable()
                &&& regions[k].base >= LOW_MEMORY_LIMIT
                &&& mapped(probe_address(regions[k]))
                &&& area.size >= MIN_HEAP_BYTES
            },
{
    if let Some(area) = choice {
        let k = choose|k: int|
            k < regions.len() && #[trigger] first_fit(regions, mapped, k) && area == area_of(
                regions[k],
            );
    }
}

/// Selection is a function of the map and the mapping: one input has one
/// outcome.
pub proof fn lemma_selection_deterministic(
    regions: Seq<MemoryRegion>,
    mapped: spec_fn(u64) -> bool,
    first: Option<HeapArea>,
    second: Option<HeapArea>,
)
    requires
        selects(regions, mapped, first),
        selects(regions, mapped, second),
    ensures
        first == second,
{
    let n = regions.len() as int;
    if let Some(a) = first {
        let k = choose|k: int|
            k < n && #[trigger] first_fit(regions, mapped, k) && a == area_of(regions[k]);
        match second {
            Some(b) => {
                let l = choose|l: int|
                    l < n && #[trigger] first_fit(regions, mapped, l) && b == area_of(regions[l]);
                if k < l {
                    assert(!passes(regions, mapped, k));
                } else if l < k {
                    assert(!passes(regions, mapped, l));
                }
            },
            None => {
                assert(!passes(regions, mapped, k));
            },
        }
    } else if let Some(b) = second {
        let l = choose|l: int|
            l < n && #[trigger] first_fit(regions, mapped, l) && b == area_of(regions[l]);
        assert(!passes(regions, mapped, l));
    }
}

/// A selection in progress: the regions of a map are offered one by one, in
/// map order, and the first that qualifies is kept.
pub struct Selector {
    chosen: Option<HeapArea>,
}

impl View for Selector {
    type V = Option<HeapArea>;

    closed spec fn view(&self) -> Option<HeapArea> {
        self.chosen
    }
}

impl Selector {
    /// A selection to which no region has been offered.
    pub fn new() -> (selector: Self)
        ensures
            selector@ is None,
    {
        Selector { chosen: None }
    }

    /// The arena chosen so far.
    pub fn chosen(&self) -> (choice: Option<HeapArea>)
        ensures
            choice == self@,
    {
        self.chosen
    }

    /// The address to probe before `region` is offered: its first byte, where
    /// nothing is chosen yet and the region is usable and starts at or above
    /// 1 MiB. `None` where the answer could not change the selection; the
    /// region may then be offered with either answer, or not at all.
    pub fn probe_target(&self, region: &MemoryRegion) -> (target: Option<u64>)
        ensures
            target == if self@ is None && needs_probe(*region) {
                Some(probe_address(*region))
            } else {
                None
            },
            target is None ==> forall|mapped: bool| offer_spec(self@, *region, mapped) == self@,
    {
        if self.chosen.is_none() && region.is_usable() && region.base >= LOW_MEMORY_LIMIT {
            let base = region.base as usize;
            Some(base as u64)
        } else {
            None
        }
    }

    /// Offers the next region of the map, with whether its first byte is
    /// mapped. The region is chosen where nothing was chosen before and it
    /// qualifies.
    pub fn offer(&mut self, region: &MemoryRegion, mapped: bool)
        ensures
            final(self)@ == offer_spec(old(self)@, *region, mapped),
    {
        if self.chosen.is_none() && region.is_usable() && region.base >= LOW_MEMORY_LIMIT
            && mapped {
            let size = region.length as usize;
            if size >= MIN_HEAP_BYTES {
                self.chosen = Some(HeapArea { base: region.base as usize, size });
            }
        }
    }
}

/// The mapping `mapped` describes the translator: whatever `is_mapped`
/// answers about an address is what `mapped` says of it.
pub open spec fn describes<F: Fn(u64) -> bool>(mapped: spec_fn(u64) -> bool, is_mapped: F) -> bool {
    forall|vaddr: u64, answer: bool|
        call_ensures(is_mapped, (vaddr,), answer) ==> answer == mapped(vaddr)
}

/// `area` is the arena of a region of the map that is usable, starts at or
/// above 1 MiB, holds at least 32 MiB, and whose first byte the translator
/// reported as mapped.
pub open spec fn taken_from<F: Fn(u64) -> bool>(
    regions: Seq<MemoryRegion>,
    is_mapped: F,
    area: HeapArea,
) -> bool {
    exists|k: int|
        {
            &&& 0 <= k < regions.len()
            &&& area == area_of(#[trigger] regions[k])
            &&& qualifies(regions[k], true)
            &&& call_ensures(is_mapped, (probe_address(regions[k]),), true)
        }
}

/// Chooses the heap arena: the first region of `regions`, in map order, that
/// is usable, starts at or above 1 MiB, has its first byte mapped according
/// to `is_mapped`, and holds at least 32 MiB. `None` where no region does.
///
/// `is_mapped` is asked about the first byte of each region that is usable
/// and starts at or above 1 MiB, in map order, up to the region that is
/// chosen, and about nothing else. Where its answers follow a mapping, the
/// choice is the first-fit selection under that mapping.
pub fn find_heap_area<F: Fn(u64) -> bool>(regions: &[MemoryRegion], is_mapped: F) -> (choice:
    Option<HeapArea>)
    requires
        forall|k: int|
            0 <= k < regions@.len() && needs_probe(#[trigger] regions@[k]) ==> call_requires(
                is_mapped,
                (probe_address(regions@[k]),),
            ),
    ensures
        forall|mapped: spec_fn(u64) -> bool| #[trigger]
            describes(mapped, is_mapped) ==> selects(regions@, mapped, choice),
        choice matches Some(area) ==> taken_from(regions@, is_mapped, area),
{
    let mut selector = Selector::new();
    let mut i: usize = 0;
    while i < regions.len()
        invariant
            i <= regions.len(),
            forall|k: int|
                0 <= k < regions@.len() && needs_probe(#[trigger] regions@[k]) ==> call_requires(
                    is_mapped,
                    (probe_address(regions@[k]),),
                ),
            forall|mapped: spec_fn(u64) -> bool| #[trigger]
                describes(mapped, is_mapped) ==> selects_among(
                    regions@,
                    mapped,
                    i as int,
                    selector@,
                ),
            selector@ matches Some(area) ==> taken_from(regions@, is_mapped, area),
        decreases regions.len() - i,
    {
        let region = &regions[i];
        let ghost before = selector@;
        match selector.probe_target(region) {
            Some(vaddr) => {
                let present = is_mapped(vaddr);
                selector.offer(region, present);
            },
            None => {},
        }
        proof {
            assert forall|mapped: spec_fn(u64) -> bool| #[trigger]
                describes(mapped, is_mapped) implies selects_among(
                regions@,
                mapped,
                i + 1,
                selector@,
            ) by {
                lemma_offer_extends(regions@, mapped, i as int, before);
            }
        }
        i += 1;
    }
    selector.chosen()
}

} // verus!
