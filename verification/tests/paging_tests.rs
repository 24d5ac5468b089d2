use lib::paging::{
    kernel_regions, map_page, map_range, map_regions, range_fits, satp_value, KernelLayout, MapRegion,
    PageTable, PageTableMemory, SimpleFrameAllocator, PTE, PTE_R, PTE_U, PTE_W, PTE_X,
};

#[test]
fn pte_starts_invalid_and_empty() {
    let p = PTE::new();
    assert!(!p.is_valid());
    assert_eq!(p.get_ppn(), 0);
    assert_eq!(p.get_table_ptr(), 0);
}

#[test]
fn pte_ppn_valid_and_table_pointer() {
    let mut p = PTE::new();
    p.set_ppn(0x80200);
    p.set_valid(true);
    assert!(p.is_valid());
    assert_eq!(p.get_ppn(), 0x80200);
    assert_eq!(p.get_table_ptr(), 0x8020_0000);
    p.set_valid(false);
    assert!(!p.is_valid());
    assert_eq!(p.get_ppn(), 0x80200);
}

#[test]
fn pte_flags_leave_ppn_alone() {
    let mut p = PTE::new();
    p.set_ppn(5);
    p.set_flags(0xCF);
    assert_eq!(p.get_ppn(), 5);
    assert!(p.is_valid());
    p.set_flags(0x0E);
    assert!(!p.is_valid());
    assert_eq!(p.get_ppn(), 5);
}

#[test]
fn pte_ppn_is_cut_to_its_field() {
    let mut p = PTE::new();
    p.set_ppn(usize::MAX);
    assert_eq!(p.get_ppn(), 0xFFF_FFFF_FFFF);
    assert_eq!(p.get_table_ptr(), 0xFF_FFFF_FFFF_F000);
    let mut q = PTE::new();
    q.set_ppn(1 << 44);
    assert_eq!(q.get_ppn(), 0);
    assert!(!q.is_valid());
}

#[test]
fn page_table_starts_cleared() {
    let t = PageTable::new();
    assert_eq!(t.entries.len(), 512);
    assert!(t.entries.iter().all(|e| !e.is_valid()));
}

#[test]
fn allocator_rounds_start_up_and_stops_at_end() {
    let mut a = SimpleFrameAllocator::new(0x8020_1001, 0x8020_4000);
    assert_eq!(a.frames_remaining(), 2);
    assert_eq!(a.alloc_frame(), Some(0x8020_2000));
    assert_eq!(a.alloc_frame(), Some(0x8020_3000));
    assert_eq!(a.alloc_frame(), None);
    assert_eq!(a.frames_remaining(), 0);
}

#[test]
fn allocator_with_aligned_start_keeps_it() {
    let mut a = SimpleFrameAllocator::new(0x8000_0000, 0x8000_1000);
    assert_eq!(a.alloc_frame(), Some(0x8000_0000));
    assert_eq!(a.alloc_frame(), None);
}

#[test]
fn map_then_walk_finds_the_page() {
    let mut root = PageTableMemory::new(0x8000_0000);
    let mut alloc = SimpleFrameAllocator::new(0x8010_0000, 0x8020_0000);
    assert!(root.walk(0x4000_1234).is_none());
    map_page(&mut root, 0x4000_1000, 0x8765_4000, PTE_R | PTE_W, &mut alloc);
    let leaf = root.walk(0x4000_1234).expect("mapped");
    assert!(leaf.is_valid());
    assert_eq!(leaf.get_ppn(), 0x87654);
    assert_eq!(root.table_count(), 3);
    assert_eq!(alloc.frames_remaining(), 256 - 2);
    assert!(root.walk(0x4000_2000).is_none());
    assert_eq!(root.root_addr(), 0x8000_0000);
}

#[test]
fn second_page_in_same_table_needs_no_new_table() {
    let mut root = PageTableMemory::new(0x8000_0000);
    let mut alloc = SimpleFrameAllocator::new(0x8010_0000, 0x8020_0000);
    map_page(&mut root, 0x4000_1000, 0x8765_4000, PTE_R, &mut alloc);
    map_page(&mut root, 0x4000_2000, 0x8765_5000, PTE_R, &mut alloc);
    assert_eq!(root.table_count(), 3);
    assert_eq!(root.walk(0x4000_2fff).unwrap().get_ppn(), 0x87655);
    assert_eq!(root.walk(0x4000_1000).unwrap().get_ppn(), 0x87654);
}

#[test]
fn remapping_a_page_replaces_its_frame() {
    let mut root = PageTableMemory::new(0x8000_0000);
    let mut alloc = SimpleFrameAllocator::new(0x8010_0000, 0x8020_0000);
    map_page(&mut root, 0x1000, 0x2000, PTE_R, &mut alloc);
    map_page(&mut root, 0x1000, 0x9000, PTE_R | PTE_W, &mut alloc);
    assert_eq!(root.walk(0x1000).unwrap().get_ppn(), 0x9);
    assert_eq!(root.table_count(), 3);
}

#[test]
fn map_range_covers_partial_last_page() {
    let mut root = PageTableMemory::new(0x8000_0000);
    let mut alloc = SimpleFrameAllocator::new(0x8010_0000, 0x8020_0000);
    assert!(range_fits(&root, 0x1000_0000, 0x1000_0000, 0x2001, PTE_R, &alloc));
    map_range(&mut root, 0x1000_0000, 0x1000_0000, 0x2001, PTE_R, &mut alloc);
    assert_eq!(root.walk(0x1000_0000).unwrap().get_ppn(), 0x10000);
    assert_eq!(root.walk(0x1000_1000).unwrap().get_ppn(), 0x10001);
    assert_eq!(root.walk(0x1000_2000).unwrap().get_ppn(), 0x10002);
    assert!(root.walk(0x1000_3000).is_none());
}

#[test]
fn map_range_of_zero_bytes_maps_nothing() {
    let mut root = PageTableMemory::new(0x8000_0000);
    let mut alloc = SimpleFrameAllocator::new(0x8010_0000, 0x8020_0000);
    map_range(&mut root, 0x1000_0000, 0x1000_0000, 0, PTE_R, &mut alloc);
    assert_eq!(root.table_count(), 1);
    assert!(root.walk(0x1000_0000).is_none());
}

#[test]
fn range_fits_wants_two_frames_per_block() {
    let root = PageTableMemory::new(0x8000_0000);
    let four = SimpleFrameAllocator::new(0x8010_0000, 0x8010_4000);
    assert!(range_fits(&root, 0, 0, 0x3000, PTE_R, &four));
    assert!(range_fits(&root, 0x1F_F000, 0, 0x2000, PTE_R, &four));
    let three = SimpleFrameAllocator::new(0x8010_0000, 0x8010_3000);
    assert!(!range_fits(&root, 0x1F_F000, 0, 0x2000, PTE_R, &three));
    assert!(range_fits(&root, 0, 0, 0x20_0000, PTE_R, &three));
    assert!(!range_fits(&root, usize::MAX - 0xfff, 0, 0x2000, PTE_R, &four));
    let none = SimpleFrameAllocator::new(0x8010_0000, 0x8010_0000);
    assert!(range_fits(&root, 0, 0, 0, PTE_R, &none));
    assert!(!range_fits(&root, 0, 0, 1, PTE_R, &none));
}

#[test]
fn large_range_uses_one_leaf_table_per_block() {
    let mut root = PageTableMemory::new(0x8000_0000);
    let mut alloc = SimpleFrameAllocator::new(0x8010_0000, 0x8020_0000);
    assert!(range_fits(&root, 0x8020_0000, 0x8020_0000, 0x40_0000, PTE_R | PTE_W, &alloc));
    map_range(&mut root, 0x8020_0000, 0x8020_0000, 0x40_0000, PTE_R | PTE_W, &mut alloc);
    assert_eq!(root.table_count(), 4);
    assert_eq!(root.walk(0x805F_F000).unwrap().get_ppn(), 0x805FF);
    assert!(root.walk(0x8060_0000).is_none());
}

#[test]
fn kernel_regions_follow_the_layout() {
    let l = KernelLayout {
        stext: 0x8020_0000,
        etext: 0x8021_0000,
        srodata: 0x8021_0000,
        erodata: 0x8021_8000,
        sdata: 0x8022_0000,
        ekernel: 0x8030_0000,
    };
    let r = kernel_regions(&l);
    assert_eq!(r.len(), 10);
    assert_eq!(r[0], MapRegion { va: 0x1000_0000, pa: 0x1000_0000, size: 4096, flags: PTE_R | PTE_W });
    assert_eq!(r[1], MapRegion { va: 0x1000_1000, pa: 0x1000_1000, size: 0x8000, flags: PTE_R | PTE_W | PTE_U });
    assert_eq!(r[3], MapRegion { va: 0x8020_0000, pa: 0x8020_0000, size: 0x10000, flags: PTE_R | PTE_X });
    assert_eq!(r[4], MapRegion { va: 0x4000_0000, pa: 0x8000_0000, size: 0x20_0000, flags: PTE_R | PTE_X | PTE_U });
    assert_eq!(r[5], MapRegion { va: 0x4020_0000, pa: 0x8020_0000, size: 0x10000, flags: PTE_R | PTE_X | PTE_U });
    assert_eq!(r[6], MapRegion { va: 0x4021_0000, pa: 0x8021_0000, size: 0x8000, flags: PTE_R | PTE_U });
    assert_eq!(r[7], MapRegion { va: 0x4022_0000, pa: 0x8022_0000, size: 0x07DE_0000, flags: PTE_R | PTE_W | PTE_U });
    assert_eq!(r[9], MapRegion { va: 0x8022_0000, pa: 0x8022_0000, size: 0x07DE_0000, flags: PTE_R | PTE_W | PTE_U });
}

#[test]
fn satp_holds_mode_and_root_page() {
    assert_eq!(satp_value(0x8020_5000), (8u64 << 60) | 0x80205);
    assert_eq!(satp_value(0), 8u64 << 60);
}

#[test]
fn map_regions_maps_in_order_and_stops_when_frames_run_out() {
    let regions = [
        MapRegion { va: 0x1000_0000, pa: 0x1000_0000, size: 4096, flags: PTE_R | PTE_W },
        MapRegion { va: 0x1000_1000, pa: 0x1000_1000, size: 0x8000, flags: PTE_R | PTE_W | PTE_U },
        MapRegion { va: 0x8000_0000, pa: 0x8000_0000, size: 0x1000, flags: PTE_R | PTE_X },
        MapRegion { va: 0x1000_A000, pa: 0x1000_A000, size: 0x1000, flags: PTE_R },
        MapRegion { va: 0x801F_F000, pa: 0x801F_F000, size: 0x2000, flags: PTE_R },
        MapRegion { va: 0xC000_0000, pa: 0x8000_0000, size: 0x1000, flags: PTE_R },
    ];
    let mut root = PageTableMemory::new(0x8000_0000);
    let mut alloc = SimpleFrameAllocator::new(0x8010_0000, 0x8010_4000);
    // The four frames go to the tables of the first and third regions; the
    // fourth region and the first page of the fifth need no new table; the
    // fifth's second page needs a leaf table that no frame is left for.
    assert_eq!(map_regions(&mut root, &regions, &mut alloc), (4, 1));
    assert_eq!(root.walk(0x1000_8000).unwrap().get_ppn(), 0x10008);
    assert_eq!(root.walk(0x8000_0000).unwrap().get_ppn(), 0x80000);
    assert_eq!(root.walk(0x1000_A000).unwrap().get_ppn(), 0x1000A);
    assert_eq!(root.walk(0x801F_F000).unwrap().get_ppn(), 0x801FF);
    assert!(root.walk(0x8020_0000).is_none());
    assert!(root.walk(0xC000_0000).is_none());
    assert_eq!(alloc.frames_remaining(), 0);
    let mut root2 = PageTableMemory::new(0x8000_0000);
    let mut plenty = SimpleFrameAllocator::new(0x8010_0000, 0x8020_0000);
    assert_eq!(map_regions(&mut root2, &regions, &mut plenty), (6, 0));
    assert_eq!(root2.walk(0xC000_0000).unwrap().get_ppn(), 0x80000);
    assert_eq!(root2.walk(0x8020_0000).unwrap().get_ppn(), 0x80200);
}
