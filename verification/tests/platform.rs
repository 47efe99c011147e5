use lantern_runtime::platform::{
    frame_cptr_of, vaddr_of, BumpArena, FrameArena, ARENA_BYTES, ARENA_FRAME_CPTR_BASE, ARENA_VADDR,
    MEGAPAGE_BYTES, PAGE_SIZE,
};

#[test]
fn arena_hands_out_page_aligned_distinct_regions_then_exhausts() {
    let mut arena = BumpArena::new(0x40_0000);
    let a = arena.allocate(4096).unwrap();
    assert_eq!(a % 4096, 0);

    let b = arena.allocate(1).unwrap(); // rounds to a page
    assert_eq!(b, a + 4096);

    // Way past the arena -> refused, no panic.
    assert!(arena.allocate(ARENA_BYTES * 2).is_none());
}

#[test]
fn the_bump_arena_starts_at_its_base_and_fills_up_exactly() {
    let mut arena = BumpArena::new(0x40_0000);
    assert_eq!(arena.arena_base(), 0x40_0000);
    assert_eq!(arena.allocate(0), Some(0x40_0000));
    assert_eq!(arena.allocate(ARENA_BYTES), Some(0x40_0000));
    assert_eq!(arena.allocate(1), None);
    assert_eq!(PAGE_SIZE, 4096);
}

#[test]
fn frame_regions_are_handed_out_once_then_exhaust() {
    let mut arena = FrameArena::new();
    assert_eq!(arena.allocate(1), Some(ARENA_VADDR));
    assert_eq!(arena.allocate(MEGAPAGE_BYTES + 1), None); // two more regions do not fit
    assert_eq!(arena.allocate(0), Some(ARENA_VADDR + MEGAPAGE_BYTES));
    assert_eq!(arena.allocate(1), None);
}

#[test]
fn a_large_allocation_takes_consecutive_regions() {
    let mut arena = FrameArena::new();
    assert_eq!(arena.allocate(MEGAPAGE_BYTES + 1), Some(ARENA_VADDR));
    assert_eq!(arena.dealloc(ARENA_VADDR), Some((0, 2)));
}

#[test]
fn dealloc_gives_back_only_what_was_handed_out() {
    let mut arena = FrameArena::new();
    let first = arena.allocate(4096).unwrap();
    let second = arena.allocate(4096).unwrap();
    assert_eq!(arena.dealloc(first + 1), None);
    assert_eq!(arena.dealloc(second), Some((1, 1)));
    assert_eq!(arena.dealloc(second), None);
    assert_eq!(arena.dealloc(first), Some((0, 1)));
    // Regions are never rewound.
    assert_eq!(arena.allocate(1), None);
}

#[test]
fn region_addresses_and_frame_slots() {
    assert_eq!(vaddr_of(0), ARENA_VADDR);
    assert_eq!(vaddr_of(1), ARENA_VADDR + 0x20_0000);
    assert_eq!(frame_cptr_of(1), ARENA_FRAME_CPTR_BASE + 1);
}

#[test]
fn a_request_near_the_address_space_limit_is_refused_without_moving_the_arena() {
    let mut arena = BumpArena::new(0x40_0000);
    assert_eq!(arena.allocate(usize::MAX), None);
    assert_eq!(arena.allocate(usize::MAX - 4095), None);
    assert_eq!(arena.allocate(1), Some(0x40_0000));
}

#[test]
fn region_addresses_follow_the_arena_past_its_frames() {
    assert_eq!(vaddr_of(5), ARENA_VADDR + 5 * MEGAPAGE_BYTES);
}

#[test]
fn frame_slots_follow_the_base_past_the_granted_regions() {
    assert_eq!(frame_cptr_of(5), ARENA_FRAME_CPTR_BASE + 5);
}
