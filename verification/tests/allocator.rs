use kernel_core::allocator::BumpAllocator;
use kernel_core::bump::{next_cursor, AllocatorState};
use kernel_core::selector::HeapArea;

const MIB: usize = 1024 * 1024;

fn arena_64_mib() -> HeapArea {
    HeapArea { base: 0x100000, size: 64 * MIB }
}

#[test]
fn two_pages_from_a_fresh_arena() {
    let allocator = BumpAllocator::new(arena_64_mib());
    assert_eq!(allocator.allocate(4096, 4096), Some(0x100000));
    assert_eq!(allocator.allocate(4096, 4096), Some(0x101000));
    assert_eq!(allocator.cursor(), 0x102000);
}

#[test]
fn two_pages_from_a_fresh_single_owner_arena() {
    let mut state = AllocatorState::new(arena_64_mib());
    assert_eq!(state.allocate(4096, 4096), Some(0x100000));
    assert_eq!(state.allocate(4096, 4096), Some(0x101000));
    assert_eq!(state.cursor(), 0x102000);
}

#[test]
fn fresh_allocator_starts_at_the_base() {
    let allocator = BumpAllocator::new(arena_64_mib());
    assert_eq!(allocator.cursor(), 0x100000);
    assert_eq!(allocator.heap_area(), arena_64_mib());
    let state = AllocatorState::new(arena_64_mib());
    assert_eq!(state.heap_base(), 0x100000);
    assert_eq!(state.heap_size(), 64 * MIB);
    assert_eq!(state.cursor(), 0x100000);
    assert_eq!(state.remaining(), 64 * MIB);
}

#[test]
fn cursor_is_rounded_up_to_the_alignment() {
    let allocator = BumpAllocator::new(arena_64_mib());
    assert_eq!(allocator.allocate(3, 1), Some(0x100000));
    assert_eq!(allocator.cursor(), 0x100003);
    assert_eq!(allocator.allocate(8, 8), Some(0x100008));
    assert_eq!(allocator.cursor(), 0x100010);
    assert_eq!(allocator.allocate(1, 4096), Some(0x101000));
    assert_eq!(allocator.cursor(), 0x101001);
    assert_eq!(allocator.allocate(5, 3), Some(0x101001));
    assert_eq!(allocator.cursor(), 0x101006);
    assert_eq!(allocator.allocate(5, 3), Some(0x101007));
    assert_eq!(allocator.cursor(), 0x10100C);
}

#[test]
fn granted_addresses_are_aligned_and_end_inside_the_arena() {
    let area = arena_64_mib();
    let allocator = BumpAllocator::new(area);
    let requests: [(usize, usize); 8] =
        [(1, 1), (7, 2), (24, 8), (4096, 4096), (100, 64), (3, 16), (MIB, 4096), (1, 1 << 20)];
    for (size, align) in requests {
        let addr = allocator.allocate(size, align).unwrap();
        assert_eq!(addr % align, 0);
        assert!(addr >= area.base);
        assert!(addr + size <= area.base + area.size);
    }
}

#[test]
fn granted_blocks_do_not_overlap() {
    let allocator = BumpAllocator::new(arena_64_mib());
    let requests: [(usize, usize); 6] =
        [(10, 1), (33, 16), (4096, 4096), (1, 1), (512, 256), (7, 4)];
    let mut blocks: Vec<(usize, usize)> = Vec::new();
    for (size, align) in requests {
        let addr = allocator.allocate(size, align).unwrap();
        blocks.push((addr, size));
    }
    for i in 0..blocks.len() {
        for j in (i + 1)..blocks.len() {
            let (a, s) = blocks[i];
            let (b, _) = blocks[j];
            assert!(a + s <= b);
        }
    }
}

#[test]
fn cursor_never_moves_back() {
    let allocator = BumpAllocator::new(HeapArea { base: 0x100000, size: 0x1000 });
    let requests: [(usize, usize); 7] =
        [(16, 8), (0x2000, 1), (100, 4), (0, 1), (usize::MAX, 1), (0xF00, 16), (0x10, 1)];
    let mut last = allocator.cursor();
    for (size, align) in requests {
        let _ = allocator.allocate(size, align);
        allocator.deallocate(0x100000, size, align);
        let now = allocator.cursor();
        assert!(now >= last);
        last = now;
    }
}

#[test]
fn releases_change_nothing() {
    let allocator = BumpAllocator::new(arena_64_mib());
    let first = allocator.allocate(64, 8).unwrap();
    let before = allocator.cursor();
    for _ in 0..5 {
        allocator.deallocate(first, 64, 8);
        assert_eq!(allocator.cursor(), before);
    }
    let second = allocator.allocate(64, 8).unwrap();
    assert_eq!(second, first + 64);

    let mut state = AllocatorState::new(arena_64_mib());
    let first = state.allocate(64, 8).unwrap();
    for _ in 0..5 {
        state.deallocate(first, 64, 8);
        assert_eq!(state.cursor(), 0x100040);
        assert_eq!(state.remaining(), 64 * MIB - 64);
    }
    assert_eq!(state.allocate(64, 8), Some(first + 64));
}

#[test]
fn exact_fit_fills_the_arena_and_one_byte_more_is_refused() {
    let area = HeapArea { base: 0x100000, size: 0x1000 };

    let allocator = BumpAllocator::new(area);
    assert_eq!(allocator.allocate(0x100, 1), Some(0x100000));
    assert_eq!(allocator.allocate(0xF01, 1), None);
    assert_eq!(allocator.cursor(), 0x100100);
    assert_eq!(allocator.allocate(0xF00, 1), Some(0x100100));
    assert_eq!(allocator.cursor(), 0x101000);
    assert_eq!(allocator.allocate(1, 1), None);
    assert_eq!(allocator.cursor(), 0x101000);
    assert_eq!(allocator.allocate(0, 1), Some(0x101000));
    assert_eq!(allocator.cursor(), 0x101000);

    let mut state = AllocatorState::new(area);
    assert_eq!(state.allocate(0x1001, 1), None);
    assert_eq!(state.cursor(), 0x100000);
    assert_eq!(state.allocate(0x1000, 1), Some(0x100000));
    assert_eq!(state.cursor(), 0x101000);
    assert_eq!(state.remaining(), 0);
}

#[test]
fn padding_for_alignment_counts_against_the_arena() {
    let mut state = AllocatorState::new(HeapArea { base: 0x100001, size: 0x1000 });
    assert_eq!(state.allocate(0x1000, 0x1000), None);
    assert_eq!(state.cursor(), 0x100001);
    assert_eq!(state.allocate(1, 0x1000), Some(0x101000));
    assert_eq!(state.cursor(), 0x101001);
    assert_eq!(state.allocate(1, 1), None);
}

#[test]
fn oversized_request_is_refused_and_changes_nothing() {
    let allocator = BumpAllocator::new(arena_64_mib());
    assert_eq!(allocator.allocate(8, 8), Some(0x100000));
    assert_eq!(allocator.allocate(usize::MAX, 1), None);
    assert_eq!(allocator.allocate(usize::MAX - 0x100000, 8), None);
    assert_eq!(allocator.cursor(), 0x100008);
    assert_eq!(allocator.allocate(8, 8), Some(0x100008));
}

#[test]
fn alignment_beyond_the_address_space_is_refused() {
    let base = usize::MAX - 0x10;
    let mut state = AllocatorState::new(HeapArea { base, size: 0x10 });
    assert_eq!(state.allocate(1, 0x1000), None);
    assert_eq!(state.cursor(), base);
    assert_eq!(state.allocate(1, 1), Some(base));
}

#[test]
fn clamped_end_is_granted_only_where_the_arena_ends_at_the_last_word() {
    let base = usize::MAX - 0x100;
    let mut state = AllocatorState::new(HeapArea { base, size: 0x100 });
    assert_eq!(state.allocate(0x200, 1), Some(base));
    assert_eq!(state.cursor(), usize::MAX);

    let mut state = AllocatorState::new(HeapArea { base, size: 0xFF });
    assert_eq!(state.allocate(0x200, 1), None);
    assert_eq!(state.cursor(), base);
}

#[test]
fn resume_continues_inside_the_arena_only() {
    let area = HeapArea { base: 0x100000, size: 0x1000 };
    assert!(AllocatorState::resume(area, 0xFFFFF).is_none());
    assert!(AllocatorState::resume(area, 0x101001).is_none());
    let mut at_start = AllocatorState::resume(area, 0x100000).unwrap();
    assert_eq!(at_start.allocate(1, 1), Some(0x100000));
    let mut inside = AllocatorState::resume(area, 0x100801).unwrap();
    assert_eq!(inside.heap_base(), 0x100000);
    assert_eq!(inside.heap_size(), 0x1000);
    assert_eq!(inside.cursor(), 0x100801);
    assert_eq!(inside.remaining(), 0x7FF);
    assert_eq!(inside.allocate(4, 4), Some(0x100804));
    let mut at_end = AllocatorState::resume(area, 0x101000).unwrap();
    assert_eq!(at_end.allocate(1, 1), None);
}

#[test]
fn next_cursor_is_where_a_granted_request_ends() {
    let area = HeapArea { base: 0x100000, size: 0x1000 };
    assert_eq!(next_cursor(area, 0x100000, 4096, 4096), Some(0x101000));
    assert_eq!(next_cursor(area, 0x100001, 8, 8), Some(0x100010));
    assert_eq!(next_cursor(area, 0x100001, 4096, 1), None);
    assert_eq!(next_cursor(area, 0x100FFF, 1, 1), Some(0x101000));
    assert_eq!(next_cursor(area, 0x101000, 0, 1), Some(0x101000));
    assert_eq!(next_cursor(area, 0x101000, 1, 1), None);
    assert_eq!(next_cursor(area, 0xFFFFF, 1, 1), None);
    assert_eq!(next_cursor(area, 0x101001, 0, 1), None);
}

#[test]
fn independent_allocators_do_not_share_a_cursor() {
    let one = BumpAllocator::new(HeapArea { base: 0x100000, size: 0x1000 });
    let other = BumpAllocator::new(HeapArea { base: 0x200000, size: 0x1000 });
    assert_eq!(one.allocate(16, 16), Some(0x100000));
    assert_eq!(other.allocate(16, 16), Some(0x200000));
    assert_eq!(one.allocate(16, 16), Some(0x100010));
    assert_eq!(other.cursor(), 0x200010);
}
