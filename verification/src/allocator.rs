//! The allocator that the whole kernel shares: a bump allocator whose cursor
//! is advanced by one atomic read-modify-write per request, so that callers
//! in interrupt context and in the main path never receive overlapping
//! ranges and never block.

use core::sync::atomic::AtomicUsize;
use core::sync::atomic::Ordering;
use vstd::prelude::*;

use crate::bump::{grant_spec, next_cursor, next_cursor_spec, AllocatorState};
use crate::selector::HeapArea;

verus! {

/// A bump allocator that may be shared: its cursor is atomic.
pub struct BumpAllocator {
    area: HeapArea,
    cursor: AtomicUsize,
}

/// `AtomicUsize::fetch_update` with relaxed ordering, applied to the cursor
/// with `next_cursor` as the update.
///
/// Trusted: the standard library documents that the call returns
/// `Ok(previous)` where the update function returned `Some` for the value
/// that it replaced, and `Err(previous)` where it returned `None` and nothing
/// was stored.
#[verifier::external_body]
fn advance(cursor: &AtomicUsize, area: HeapArea, size: usize, align: usize) -> (r: Result<
    usize,
    usize,
>)
    requires
        area.addressable(),
        align > 0,
    ensures
        r matches Ok(seen) ==> next_cursor_spec(area, seen, size, align) is Some,
        r matches Err(seen) ==> next_cursor_spec(area, seen, size, align) is None,
{
    cursor.fetch_update(
        Ordering::Relaxed,
        Ordering::Relaxed,
        |seen| next_cursor(area, seen, size, align),
    )
}

impl BumpAllocator {
    /// The arena that the allocator serves from.
    pub closed spec fn arena(&self) -> HeapArea {
        self.area
    }

    /// The arena lies inside the address space.
    pub open spec fn wf(&self) -> bool {
        self.arena().addressable()
    }

    /// An allocator over `area` with its cursor at the start of the arena.
    pub fn new(area: HeapArea) -> (allocator: Self)
        requires
            area.addressable(),
        ensures
            allocator.wf(),
            allocator.arena() == area,
    {
        BumpAllocator { area, cursor: AtomicUsize::new(area.base) }
    }

    /// The arena that the allocator serves from.
    pub fn heap_area(&self) -> (area: HeapArea)
        ensures
            area == self.arena(),
    {
        self.area
    }

    /// The cursor as it stands at the moment of the call: one relaxed load of
    /// the atomic. Other callers may move the cursor at any time, before the
    /// load and after it, so the value is a snapshot of which nothing is
    /// promised here. `AllocatorState::resume` takes such a value and says,
    /// for each value, whether it lies inside the arena and what an
    /// allocator that continues there does.
    pub fn cursor(&self) -> usize {
        self.cursor.load(Ordering::Relaxed)
    }

    /// Serves a request of `size` bytes at a multiple of `align`.
    ///
    /// The cursor is read and advanced in one atomic step, and the request is
    /// served from the cursor that this step found: the result is what a
    /// single-owner allocator over this arena returns at that cursor. A
    /// request that is refused leaves the cursor as it was.
    pub fn allocate(&self, size: usize, align: usize) -> (r: Option<usize>)
        requires
            self.wf(),
            align > 0,
        ensures
            exists|cursor: usize| r == #[trigger] grant_spec(self.arena(), cursor, size, align),
            r matches Some(a) ==> {
                &&& a % align == 0
                &&& self.arena().base <= a
                &&& a + size <= self.arena().end() || a + size > usize::MAX
            },
    {
        match advance(&self.cursor, self.area, size, align) {
            Ok(seen) => {
                let r = match AllocatorState::resume(self.area, seen) {
                    Some(mut state) => state.allocate(size, align),
                    None => None,
                };
                assert(r == grant_spec(self.arena(), seen, size, align));
                r
            },
            Err(seen) => {
                assert(grant_spec(self.arena(), seen, size, align) is None);
                None
            },
        }
    }

    /// Releases an allocation. Nothing is reclaimed and the cursor is not
    /// touched: memory that was handed out is never handed out again.
    pub fn deallocate(&self, addr: usize, size: usize, align: usize) {
    }
}

} // verus!
