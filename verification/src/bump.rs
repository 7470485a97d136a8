//! Bump allocation over a fixed arena: a cursor that only moves forward.
//!
//! `AllocatorModel` is the mathematical state and its transitions.
//! `AllocatorState` is the single-owner allocator that refines it.

use vstd::prelude::*;
use vstd::arithmetic::div_mod::{lemma_fundamental_div_mod, lemma_mod_multiples_basic};

use crate::selector::HeapArea;

verus! {

/// The next multiple of `align` at or above `value`.
pub open spec fn round_up(value: nat, align: nat) -> nat {
    if value % align == 0 {
        value
    } else {
        (value + align - value % align) as nat
    }
}

/// `value`, held at the largest machine word where it would exceed it.
pub open spec fn clamp(value: nat) -> nat {
    if value > usize::MAX {
        usize::MAX as nat
    } else {
        value
    }
}

/// `round_up` yields a multiple of `align`, the least one at or above `value`.
pub proof fn lemma_round_up(value: nat, align: nat)
    requires
        align > 0,
    ensures
        round_up(value, align) % align == 0,
        value <= round_up(value, align) < value + align,
        value % align == 0 ==> round_up(value, align) == value,
{
    if value % align != 0 {
        let q = value / align;
        lemma_fundamental_div_mod(value as int, align as int);
        assert(align * q + align == (q + 1) * align) by (nonlinear_arith);
        lemma_mod_multiples_basic((q + 1) as int, align as int);
    }
}

/// State of a bump allocator: an arena and the cursor inside it.
pub struct AllocatorModel {
    pub heap_base: nat,
    pub heap_size: nat,
    pub cursor: nat,
}

impl AllocatorModel {
    /// The state right after initialisation on an arena.
    pub open spec fn fresh(heap_base: nat, heap_size: nat) -> AllocatorModel {
        AllocatorModel { heap_base, heap_size, cursor: heap_base }
    }

    /// One past the last byte of the arena.
    pub open spec fn limit(self) -> nat {
        self.heap_base + self.heap_size
    }

    /// The cursor lies inside the arena, and the arena inside the address space.
    pub open spec fn wf(self) -> bool {
        self.heap_base <= self.cursor <= self.limit() <= usize::MAX
    }

    /// Bytes between the cursor and the end of the arena.
    pub open spec fn remaining(self) -> nat {
        (self.limit() - self.cursor) as nat
    }

    /// Where a request with this alignment would start.
    pub open spec fn aligned_cursor(self, align: nat) -> nat {
        round_up(self.cursor, align)
    }

    /// Where the request would end, clamped to the largest machine word.
    pub open spec fn candidate_end(self, size: nat, align: nat) -> nat {
        clamp(self.aligned_cursor(align) + size)
    }

    /// The request's end was clamped: its true end lies beyond the address space.
    pub open spec fn clamps(self, size: nat, align: nat) -> bool {
        self.aligned_cursor(align) + size > usize::MAX
    }

    /// Whether the request is granted.
    pub open spec fn fits(self, size: nat, align: nat) -> bool {
        &&& self.aligned_cursor(align) <= usize::MAX
        &&& self.candidate_end(size, align) <= self.limit()
    }

    /// The address handed out for the request, if it is granted.
    pub open spec fn allocation(self, size: nat, align: nat) -> Option<nat> {
        if self.fits(size, align) {
            Some(self.aligned_cursor(align))
        } else {
            None
        }
    }

    /// The state after the request: the cursor moves to the end of a granted
    /// request, and a refused one changes nothing.
    pub open spec fn after_allocate(self, size: nat, align: nat) -> AllocatorModel {
        if self.fits(size, align) {
            AllocatorModel { cursor: self.candidate_end(size, align), ..self }
        } else {
            self
        }
    }

    /// The state after a release: nothing is ever reclaimed.
    pub open spec fn after_deallocate(self, addr: nat, size: nat, align: nat) -> AllocatorModel {
        self
    }
}

/// The state of an allocator over `area` whose cursor stands at `cursor`.
pub open spec fn model_at(area: HeapArea, cursor: usize) -> AllocatorModel {
    AllocatorModel {
        heap_base: area.base as nat,
        heap_size: area.size as nat,
        cursor: cursor as nat,
    }
}

/// Where the cursor of an allocator over `area` moves from `cursor` when the
/// request is granted there; `None` where `cursor` lies outside the arena or
/// the request does not fit.
pub open spec fn next_cursor_spec(
    area: HeapArea,
    cursor: usize,
    size: usize,
    align: usize,
) -> Option<usize> {
    let state = model_at(area, cursor);
    if state.wf() && state.fits(size as nat, align as nat) {
        Some(state.candidate_end(size as nat, align as nat) as usize)
    } else {
        None
    }
}

/// What an allocator over `area` answers to a request that finds the cursor
/// at `cursor`: the address that it grants, or `None` where the request does
/// not fit or `cursor` lies outside the arena.
pub open spec fn grant_spec(
    area: HeapArea,
    cursor: usize,
    size: usize,
    align: usize,
) -> Option<usize> {
    let state = model_at(area, cursor);
    if state.wf() && state.fits(size as nat, align as nat) {
        Some(state.aligned_cursor(align as nat) as usize)
    } else {
        None
    }
}

/// Every update of the cursor moves it forward and keeps it inside the arena.
/// An update takes place exactly where the request is granted; the address
/// granted lies between the cursor found and the cursor left, and the state
/// left is the state that the request leaves behind.
pub proof fn lemma_next_cursor_forward(area: HeapArea, cursor: usize, size: usize, align: usize)
    requires
        area.addressable(),
        align > 0,
    ensures
        next_cursor_spec(area, cursor, size, align) is Some <==> grant_spec(
            area,
            cursor,
            size,
            align,
        ) is Some,
        next_cursor_spec(area, cursor, size, align) matches Some(next) ==> {
            &&& area.base <= cursor <= grant_spec(area, cursor, size, align).unwrap() <= next
                <= area.end()
            &&& model_at(area, next).wf()
            &&& model_at(area, next) == model_at(area, cursor).after_allocate(
                size as nat,
                align as nat,
            )
        },
{
    lemma_round_up(cursor as nat, align as nat);
}

/// The address of an allocation result as a natural number.
pub open spec fn address(r: Option<usize>) -> Option<nat> {
    match r {
        Some(a) => Some(a as nat),
        None => None,
    }
}

/// A bump allocator with a single owner.
pub struct AllocatorState {
    heap_base: usize,
    heap_size: usize,
    cursor: usize,
}

impl View for AllocatorState {
    type V = AllocatorModel;

    closed spec fn view(&self) -> AllocatorModel {
        AllocatorModel {
            heap_base: self.heap_base as nat,
            heap_size: self.heap_size as nat,
            cursor: self.cursor as nat,
        }
    }
}

impl AllocatorState {
    /// The invariant of every allocator that `new` or `resume` returned.
    pub open spec fn wf(&self) -> bool {
        self@.wf()
    }

    /// An allocator over `area` with nothing handed out yet.
    pub fn new(area: HeapArea) -> (state: Self)
        requires
            area.addressable(),
        ensures
            state.wf(),
            state@ == AllocatorModel::fresh(area.base as nat, area.size as nat),
    {
        AllocatorState { heap_base: area.base, heap_size: area.size, cursor: area.base }
    }

    /// An allocator over `area` that continues at `cursor`, or `None` where
    /// `cursor` lies outside the arena.
    pub fn resume(area: HeapArea, cursor: usize) -> (state: Option<Self>)
        requires
            area.addressable(),
        ensures
            state is Some <==> area.base <= cursor <= area.end(),
            state matches Some(s) ==> s.wf() && s@ == (AllocatorModel {
                heap_base: area.base as nat,
                heap_size: area.size as nat,
                cursor: cursor as nat,
            }),
    {
        if area.base <= cursor && cursor <= area.base + area.size {
            Some(AllocatorState { heap_base: area.base, heap_size: area.size, cursor })
        } else {
            None
        }
    }

    /// Address of the first byte of the arena.
    pub fn heap_base(&self) -> (base: usize)
        ensures
            base == self@.heap_base,
    {
        self.heap_base
    }

    /// Number of bytes in the arena.
    pub fn heap_size(&self) -> (size: usize)
        ensures
            size == self@.heap_size,
    {
        self.heap_size
    }

    /// The address from which the next request is served.
    pub fn cursor(&self) -> (cursor: usize)
        ensures
            cursor == self@.cursor,
    {
        self.cursor
    }

    /// Bytes left between the cursor and the end of the arena.
    pub fn remaining(&self) -> (bytes: usize)
        requires
            self.wf(),
        ensures
            bytes == self@.remaining(),
    {
        self.heap_base + self.heap_size - self.cursor
    }

    /// Serves a request of `size` bytes at a multiple of `align`.
    ///
    /// The cursor is rounded up to `align`; the request ends `size` bytes
    /// later, clamped to the largest machine word. It is granted where that
    /// end does not pass the end of the arena, and the cursor then moves
    /// there. A refused request changes nothing.
    pub fn allocate(&mut self, size: usize, align: usize) -> (r: Option<usize>)
        requires
            old(self).wf(),
            align > 0,
        ensures
            final(self).wf(),
            address(r) == old(self)@.allocation(size as nat, align as nat),
            final(self)@ == old(self)@.after_allocate(size as nat, align as nat),
            r matches Some(a) ==> {
                &&& a % align == 0
                &&& old(self)@.cursor <= a
                &&& a + size <= old(self)@.limit() || old(self)@.clamps(size as nat, align as nat)
            },
            old(self)@.cursor <= final(self)@.cursor,
    {
        proof {
            lemma_round_up(self@.cursor, align as nat);
        }
        let rem = self.cursor % align;
        let aligned = if rem == 0 {
            self.cursor
        } else {
            match self.cursor.checked_add(align - rem) {
                Some(a) => a,
                None => {
                    return None;
                },
            }
        };
        let next = aligned.saturating_add(size);
        if next > self.heap_base + self.heap_size {
            None
        } else {
            self.cursor = next;
            Some(aligned)
        }
    }

    /// Releases an allocation. A bump allocator reclaims nothing: the state
    /// stays as it is, whatever is released.
    pub fn deallocate(&mut self, addr: usize, size: usize, align: usize)
        ensures
            final(self)@ == old(self)@.after_deallocate(addr as nat, size as nat, align as nat),
            final(self)@ == old(self)@,
    {
    }
}

/// The cursor update of one request, as a function of the cursor it finds.
pub fn next_cursor(area: HeapArea, cursor: usize, size: usize, align: usize) -> (next: Option<
    usize,
>)
    requires
        area.addressable(),
        align > 0,
    ensures
        next == next_cursor_spec(area, cursor, size, align),
{
    match AllocatorState::resume(area, cursor) {
        Some(mut state) => match state.allocate(size, align) {
            Some(_) => Some(state.cursor()),
            None => None,
        },
        None => None,
    }
}

} // verus!
