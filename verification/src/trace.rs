//! What holds of every run of a bump allocator: the cursor never moves back,
//! releases change nothing, and the blocks handed out never overlap.

use vstd::prelude::*;

use crate::bump::{lemma_round_up, AllocatorModel};

verus! {

/// One call on the allocator.
pub enum Op {
    Allocate { size: nat, align: nat },
    Deallocate { addr: nat, size: nat, align: nat },
}

impl Op {
    /// The call is one that the allocator accepts: a request names a
    /// non-zero alignment.
    pub open spec fn valid(self) -> bool {
        match self {
            Op::Allocate { size, align } => align > 0,
            Op::Deallocate { addr, size, align } => true,
        }
    }
}

/// A block of memory: its address and its size in bytes.
pub struct Block {
    pub addr: nat,
    pub size: nat,
}

impl Block {
    /// One past the last byte of the block.
    pub open spec fn end(self) -> nat {
        self.addr + self.size
    }

    /// The two blocks share no byte.
    pub open spec fn disjoint(self, other: Block) -> bool {
        ||| self.size == 0
        ||| other.size == 0
        ||| self.end() <= other.addr
        ||| other.end() <= self.addr
    }
}

/// Every call of the run is valid.
pub open spec fn valid_run(ops: Seq<Op>) -> bool {
    forall|k: int| 0 <= k < ops.len() ==> (#[trigger] ops[k]).valid()
}

impl AllocatorModel {
    /// The state after one call.
    pub open spec fn step(self, op: Op) -> AllocatorModel {
        match op {
            Op::Allocate { size, align } => self.after_allocate(size, align),
            Op::Deallocate { addr, size, align } => self.after_deallocate(addr, size, align),
        }
    }

    /// The state after the first `n` calls of `ops`, made in order.
    pub open spec fn run(self, ops: Seq<Op>, n: nat) -> AllocatorModel
        decreases n,
    {
        if n == 0 {
            self
        } else {
            self.run(ops, (n - 1) as nat).step(ops[n - 1])
        }
    }

    /// The block that call `k` of the run hands out; `None` where the call is
    /// a release or a request that is refused.
    pub open spec fn granted(self, ops: Seq<Op>, k: nat) -> Option<Block> {
        match ops[k as int] {
            Op::Allocate { size, align } => match self.run(ops, k).allocation(size, align) {
                Some(addr) => Some(Block { addr, size }),
                None => None,
            },
            Op::Deallocate { addr, size, align } => None,
        }
    }

    /// Call `k` of the run is a request whose end is clamped.
    pub open spec fn clamped(self, ops: Seq<Op>, k: nat) -> bool {
        match ops[k as int] {
            Op::Allocate { size, align } => self.run(ops, k).clamps(size, align),
            Op::Deallocate { addr, size, align } => false,
        }
    }
}

/// One call keeps the arena, keeps the state well-formed, and never moves
/// the cursor back.
pub proof fn lemma_step(state: AllocatorModel, op: Op)
    requires
        state.wf(),
        op.valid(),
    ensures
        state.step(op).wf(),
        state.step(op).heap_base == state.heap_base,
        state.step(op).heap_size == state.heap_size,
        state.cursor <= state.step(op).cursor,
{
    match op {
        Op::Allocate { size, align } => {
            lemma_round_up(state.cursor, align);
        },
        Op::Deallocate { addr, size, align } => {},
    }
}

/// The cursor never moves back: after more calls of a run it stands at or
/// above where it stood after fewer.
pub proof fn lemma_cursor_monotonic(start: AllocatorModel, ops: Seq<Op>, earlier: nat, later: nat)
    requires
        start.wf(),
        valid_run(ops),
        earlier <= later <= ops.len(),
    ensures
        start.run(ops, later).wf(),
        start.run(ops, later).heap_base == start.heap_base,
        start.run(ops, later).heap_size == start.heap_size,
        start.heap_base <= start.run(ops, earlier).cursor <= start.run(ops, later).cursor
            <= start.limit(),
    decreases later,
{
    if later > 0 {
        let before = (later - 1) as nat;
        if earlier == later {
            lemma_cursor_monotonic(start, ops, before, before);
        } else {
            lemma_cursor_monotonic(start, ops, earlier, before);
        }
        lemma_step(start.run(ops, before), ops[before as int]);
    }
}

/// Releases change nothing: where calls `from` up to `to` of a run are all
/// releases, however many, the state after them is the state before them.
pub proof fn lemma_releases_change_nothing(start: AllocatorModel, ops: Seq<Op>, from: nat, to: nat)
    requires
        from <= to <= ops.len(),
        forall|k: int| from <= k < to ==> #[trigger] ops[k] is Deallocate,
    ensures
        start.run(ops, to) == start.run(ops, from),
    decreases to,
{
    if from < to {
        lemma_releases_change_nothing(start, ops, from, (to - 1) as nat);
    }
}

/// A granted block starts at a multiple of its alignment, at or above the
/// cursor that the request found, and ends inside the arena unless its end
/// was clamped.
pub proof fn lemma_granted_in_bounds(state: AllocatorModel, size: nat, align: nat)
    requires
        state.wf(),
        align > 0,
        state.fits(size, align),
    ensures
        state.aligned_cursor(align) % align == 0,
        state.heap_base <= state.cursor <= state.aligned_cursor(align),
        state.clamps(size, align) ==> state.limit() == usize::MAX,
        !state.clamps(size, align) ==> state.aligned_cursor(align) + size <= state.limit(),
        !state.clamps(size, align) ==> state.after_allocate(size, align).cursor
            == state.aligned_cursor(align) + size,
{
    lemma_round_up(state.cursor, align);
}

/// Addresses are handed out in ascending order: no request receives an
/// address below one that was handed out before it.
pub proof fn lemma_granted_addresses_ascend(
    start: AllocatorModel,
    ops: Seq<Op>,
    earlier: nat,
    later: nat,
)
    requires
        start.wf(),
        valid_run(ops),
        earlier < later < ops.len(),
        start.granted(ops, earlier) is Some,
        start.granted(ops, later) is Some,
    ensures
        start.heap_base <= start.granted(ops, earlier).unwrap().addr <= start.granted(
            ops,
            later,
        ).unwrap().addr,
{
    let found = start.run(ops, earlier);
    let reached = start.run(ops, later);
    lemma_cursor_monotonic(start, ops, earlier, earlier);
    lemma_cursor_monotonic(start, ops, earlier + 1, later);
    match ops[earlier as int] {
        Op::Allocate { size, align } => {
            lemma_round_up(found.cursor, align);
        },
        Op::Deallocate { addr, size, align } => {},
    }
    match ops[later as int] {
        Op::Allocate { size, align } => {
            lemma_round_up(reached.cursor, align);
        },
        Op::Deallocate { addr, size, align } => {},
    }
}

/// The blocks handed out in a run never overlap: a block granted earlier
/// ends at or before the start of any block granted later. The one
/// exception is a block whose end was clamped, which reaches beyond the
/// address space and so into whatever non-empty block follows.
pub proof fn lemma_granted_blocks_disjoint(
    start: AllocatorModel,
    ops: Seq<Op>,
    earlier: nat,
    later: nat,
)
    requires
        start.wf(),
        valid_run(ops),
        earlier < later < ops.len(),
        start.granted(ops, earlier) is Some,
        start.granted(ops, later) is Some,
        !start.clamped(ops, earlier) || start.granted(ops, later).unwrap().size == 0,
    ensures
        start.granted(ops, earlier).unwrap().disjoint(start.granted(ops, later).unwrap()),
        !start.clamped(ops, earlier) ==> start.granted(ops, earlier).unwrap().end()
            <= start.granted(ops, later).unwrap().addr,
{
    if !start.clamped(ops, earlier) {
        let found = start.run(ops, earlier);
        let reached = start.run(ops, later);
        lemma_cursor_monotonic(start, ops, earlier, earlier);
        lemma_cursor_monotonic(start, ops, earlier + 1, later);
        match ops[earlier as int] {
            Op::Allocate { size, align } => {
                lemma_granted_in_bounds(found, size, align);
            },
            Op::Deallocate { addr, size, align } => {},
        }
        match ops[later as int] {
            Op::Allocate { size, align } => {
                lemma_granted_in_bounds(reached, size, align);
            },
            Op::Deallocate { addr, size, align } => {},
        }
    }
}

/// A request for exactly the space that is left behind the aligned cursor is
/// granted and moves the cursor to the end of the arena. A request for one
/// byte more is refused and changes nothing, unless the arena ends at the
/// largest machine word, where the clamped end of the larger request still
/// lies inside it.
pub proof fn lemma_exact_fit(state: AllocatorModel, align: nat)
    requires
        state.wf(),
        align > 0,
        state.aligned_cursor(align) <= state.limit(),
    ensures
        ({
            let rest = (state.limit() - state.aligned_cursor(align)) as nat;
            &&& state.allocation(rest, align) == Some(state.aligned_cursor(align))
            &&& state.after_allocate(rest, align).cursor == state.limit()
            &&& state.limit() < usize::MAX ==> state.allocation(rest + 1, align) is None
            &&& state.limit() < usize::MAX ==> state.after_allocate(rest + 1, align) == state
        }),
{
    lemma_round_up(state.cursor, align);
}

} // verus!
