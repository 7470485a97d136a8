use std::cell::RefCell;

use kernel_core::memory_map::{MemoryRegion, RegionKind};
use kernel_core::selector::{find_heap_area, HeapArea, Selector, LOW_MEMORY_LIMIT, MIN_HEAP_BYTES};

const MIB_64: u64 = 64 * 1024 * 1024;
const MIB_32: u64 = 32 * 1024 * 1024;

fn usable(base: u64, length: u64) -> MemoryRegion {
    MemoryRegion { base, length, kind: RegionKind::Usable }
}

fn all_mapped(_vaddr: u64) -> bool {
    true
}

#[test]
fn limits_are_one_and_thirty_two_mebibytes() {
    assert_eq!(LOW_MEMORY_LIMIT, 0x100000);
    assert_eq!(MIN_HEAP_BYTES, 32 * 1024 * 1024);
}

#[test]
fn low_region_is_skipped_when_unmapped() {
    let map = [usable(0x0, 0x9FC00), usable(0x100000, MIB_64)];
    let choice = find_heap_area(&map, |vaddr| vaddr >= 0x100000);
    assert_eq!(choice, Some(HeapArea { base: 0x100000, size: 64 * 1024 * 1024 }));
}

#[test]
fn low_region_is_skipped_when_mapped() {
    let map = [usable(0x0, 0x9FC00), usable(0x100000, MIB_64)];
    let choice = find_heap_area(&map, all_mapped);
    assert_eq!(choice, Some(HeapArea { base: 0x100000, size: 64 * 1024 * 1024 }));
}

#[test]
fn usable_region_below_one_mebibyte_is_rejected() {
    assert_eq!(find_heap_area(&[usable(0xFFFFF, MIB_64)], all_mapped), None);
    assert_eq!(find_heap_area(&[usable(0x0, MIB_64 * 4)], all_mapped), None);
    assert_eq!(
        find_heap_area(&[usable(0x100000, MIB_64)], all_mapped),
        Some(HeapArea { base: 0x100000, size: 64 * 1024 * 1024 })
    );
}

#[test]
fn usable_region_one_byte_short_is_rejected() {
    assert_eq!(find_heap_area(&[usable(0x100000, MIB_32 - 1)], all_mapped), None);
    assert_eq!(
        find_heap_area(&[usable(0x100000, MIB_32)], all_mapped),
        Some(HeapArea { base: 0x100000, size: 32 * 1024 * 1024 })
    );
}

#[test]
fn region_with_unmapped_first_byte_is_rejected() {
    let map = [usable(0x4000000, MIB_64)];
    assert_eq!(find_heap_area(&map, |_| false), None);
    assert_eq!(find_heap_area(&map, |vaddr| vaddr != 0x4000000), None);
    assert_eq!(
        find_heap_area(&map, |vaddr| vaddr == 0x4000000),
        Some(HeapArea { base: 0x4000000, size: 64 * 1024 * 1024 })
    );
}

#[test]
fn region_that_is_not_usable_is_rejected_whatever_its_size() {
    let kinds = [
        RegionKind::Reserved,
        RegionKind::AcpiReclaimable,
        RegionKind::AcpiNvs,
        RegionKind::BadMemory,
        RegionKind::BootloaderReclaimable,
        RegionKind::ExecutableAndModules,
        RegionKind::Framebuffer,
        RegionKind::Other,
    ];
    for kind in kinds {
        for length in [MIB_32, MIB_64, 1 << 40] {
            let map = [MemoryRegion { base: 0x100000, length, kind }];
            assert_eq!(find_heap_area(&map, all_mapped), None);
        }
    }
}

#[test]
fn first_region_in_map_order_wins() {
    let map = [
        usable(0x8000000, MIB_32),
        usable(0x100000, MIB_64),
        usable(0x10000000, MIB_64 * 16),
    ];
    assert_eq!(
        find_heap_area(&map, all_mapped),
        Some(HeapArea { base: 0x8000000, size: 32 * 1024 * 1024 })
    );
    let reordered = [map[1], map[0], map[2]];
    assert_eq!(
        find_heap_area(&reordered, all_mapped),
        Some(HeapArea { base: 0x100000, size: 64 * 1024 * 1024 })
    );
}

#[test]
fn selection_is_repeatable() {
    let map = [
        MemoryRegion { base: 0x0, length: 0x9FC00, kind: RegionKind::Usable },
        MemoryRegion { base: 0x9FC00, length: 0x400, kind: RegionKind::Reserved },
        usable(0x100000, MIB_32 - 1),
        usable(0x2100000, MIB_64),
        usable(0x6100000, MIB_64),
    ];
    let translator = |vaddr: u64| vaddr != 0x2100000;
    let first = find_heap_area(&map, translator);
    let second = find_heap_area(&map, translator);
    assert_eq!(first, Some(HeapArea { base: 0x6100000, size: 64 * 1024 * 1024 }));
    assert_eq!(first, second);
}

#[test]
fn empty_map_selects_nothing() {
    assert_eq!(find_heap_area(&[], all_mapped), None);
}

#[test]
fn only_candidates_are_probed_and_none_after_the_choice() {
    let map = [
        usable(0x0, MIB_64),
        MemoryRegion { base: 0x200000, length: MIB_64, kind: RegionKind::Reserved },
        usable(0x4200000, 0x1000),
        usable(0x4300000, MIB_64),
        usable(0x8300000, MIB_64),
        usable(0xC300000, MIB_64),
    ];
    let probed: RefCell<Vec<u64>> = RefCell::new(Vec::new());
    let choice = find_heap_area(&map, |vaddr| {
        probed.borrow_mut().push(vaddr);
        vaddr != 0x4300000
    });
    assert_eq!(choice, Some(HeapArea { base: 0x8300000, size: 64 * 1024 * 1024 }));
    assert_eq!(*probed.borrow(), vec![0x4200000, 0x4300000, 0x8300000]);
}

#[test]
fn selector_keeps_the_first_region_that_qualifies() {
    let mut selector = Selector::new();
    assert_eq!(selector.chosen(), None);

    let low = usable(0x0, MIB_64);
    assert_eq!(selector.probe_target(&low), None);
    selector.offer(&low, true);
    assert_eq!(selector.chosen(), None);

    let reserved = MemoryRegion { base: 0x100000, length: MIB_64, kind: RegionKind::Reserved };
    assert_eq!(selector.probe_target(&reserved), None);
    selector.offer(&reserved, true);
    assert_eq!(selector.chosen(), None);

    let small = usable(0x100000, MIB_32 - 1);
    assert_eq!(selector.probe_target(&small), Some(0x100000));
    selector.offer(&small, true);
    assert_eq!(selector.chosen(), None);

    let unmapped = usable(0x4000000, MIB_64);
    assert_eq!(selector.probe_target(&unmapped), Some(0x4000000));
    selector.offer(&unmapped, false);
    assert_eq!(selector.chosen(), None);

    let good = usable(0x8000000, MIB_32);
    assert_eq!(selector.probe_target(&good), Some(0x8000000));
    selector.offer(&good, true);
    assert_eq!(selector.chosen(), Some(HeapArea { base: 0x8000000, size: 32 * 1024 * 1024 }));

    let later = usable(0x10000000, MIB_64);
    assert_eq!(selector.probe_target(&later), None);
    selector.offer(&later, true);
    assert_eq!(selector.chosen(), Some(HeapArea { base: 0x8000000, size: 32 * 1024 * 1024 }));
}

#[test]
fn region_kind_usable_is_the_only_usable_kind() {
    assert!(usable(0, 0).is_usable());
    assert!(!MemoryRegion { base: 0, length: 0, kind: RegionKind::Reserved }.is_usable());
    let reclaimable =
        MemoryRegion { base: 0, length: 0, kind: RegionKind::BootloaderReclaimable };
    assert!(!reclaimable.is_usable());
    assert!(!MemoryRegion { base: 0, length: 0, kind: RegionKind::Other }.is_usable());
}
