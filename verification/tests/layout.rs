use batch_os::layout::{
    Area, LayoutError, MemoryMap, APP_BASE_ADDRESS, APP_SIZE_LIMIT, KERNEL_STACK_SIZE, RESULT_MAX,
    TRAP_FRAME_BYTES, TRAP_FRAME_WORDS, USER_STACK_SIZE,
};

const REGION_BASE: u64 = 0x8040_0000;
const REGION_LIMIT: u64 = 0x2_0000;
const USER_STACK_BASE: u64 = 0x8020_5000;
const KERNEL_STACK_BASE: u64 = 0x8020_7000;
const STACK_SIZE: u64 = 0x2000;

fn linked_map() -> MemoryMap {
    MemoryMap::new(
        REGION_BASE,
        REGION_LIMIT,
        USER_STACK_BASE,
        STACK_SIZE,
        KERNEL_STACK_BASE,
        STACK_SIZE,
    )
    .expect("the linked layout is sound")
}

#[test]
fn a_sound_layout_is_accepted_and_read_back() {
    let map = linked_map();
    assert_eq!(map.region_base(), REGION_BASE);
    assert_eq!(map.region_limit(), REGION_LIMIT);
    assert_eq!(map.user_stack_base(), USER_STACK_BASE);
    assert_eq!(map.user_stack_size(), STACK_SIZE);
    assert_eq!(map.kernel_stack_base(), KERNEL_STACK_BASE);
    assert_eq!(map.kernel_stack_size(), STACK_SIZE);
}

#[test]
fn stack_tops_and_trap_frame() {
    let map = linked_map();
    assert_eq!(map.user_stack_top(), 0x8020_7000);
    assert_eq!(map.kernel_stack_top(), 0x8020_9000);
    assert_eq!(TRAP_FRAME_BYTES, 8 * TRAP_FRAME_WORDS);
    assert_eq!(map.trap_frame(), 0x8020_9000 - 280);
}

#[test]
fn adjacent_areas_do_not_overlap() {
    // The user stack ends exactly where the kernel stack starts.
    assert!(MemoryMap::new(0x1000, 0x1000, 0x2000, 0x1000, 0x3000, 0x1000).is_ok());
}

#[test]
fn an_area_past_the_address_space_is_out_of_range() {
    let r = MemoryMap::new(u64::MAX - 0x10, 0x11, 0x1000, 0x1000, 0x3000, 0x1000);
    assert_eq!(r.unwrap_err(), LayoutError::OutOfRange);
    let r = MemoryMap::new(0x10_0000, 0x1000, u64::MAX, 1, 0x3000, 0x1000);
    assert_eq!(r.unwrap_err(), LayoutError::OutOfRange);
    let r = MemoryMap::new(0x10_0000, 0x1000, 0x1000, 0x1000, u64::MAX - 5, 0x1000);
    assert_eq!(r.unwrap_err(), LayoutError::OutOfRange);
}

#[test]
fn an_area_ending_at_the_last_address_is_in_range() {
    let r = MemoryMap::new(0x1000, 0x1000, 0x3000, 0x1000, u64::MAX - 0x1000, 0x1000);
    assert!(r.is_ok());
}

#[test]
fn a_user_stack_longer_than_a_result_is_too_long() {
    let r = MemoryMap::new(0, 0x1000, 0x1000, RESULT_MAX + 1, u64::MAX - 0x1000, 0x1000);
    assert_eq!(r.unwrap_err(), LayoutError::TooLong);
}

#[test]
fn a_kernel_stack_without_room_for_a_context_is_too_small() {
    let r = MemoryMap::new(0x1000, 0x1000, 0x3000, 0x1000, 0x5000, 279);
    assert_eq!(r.unwrap_err(), LayoutError::KernelStackTooSmall);
    let r = MemoryMap::new(0x1000, 0x1000, 0x3000, 0x1000, 0x5000, 280);
    assert!(r.is_ok());
}

#[test]
fn overlapping_areas_are_refused() {
    // region and user stack
    let r = MemoryMap::new(0x1000, 0x1000, 0x1fff, 0x1000, 0x5000, 0x1000);
    assert_eq!(r.unwrap_err(), LayoutError::Overlap);
    // region and kernel stack
    let r = MemoryMap::new(0x5800, 0x1000, 0x1000, 0x1000, 0x5000, 0x1000);
    assert_eq!(r.unwrap_err(), LayoutError::Overlap);
    // the two stacks
    let r = MemoryMap::new(0x9000, 0x1000, 0x3000, 0x1000, 0x3800, 0x1000);
    assert_eq!(r.unwrap_err(), LayoutError::Overlap);
}

#[test]
fn the_first_defect_is_named() {
    // Too small a kernel stack and an overlap: the stack is named.
    let r = MemoryMap::new(0x1000, 0x1000, 0x1800, 0x1000, 0x5000, 8);
    assert_eq!(r.unwrap_err(), LayoutError::KernelStackTooSmall);
}

#[test]
fn locate_finds_the_region() {
    let map = linked_map();
    assert_eq!(map.locate(REGION_BASE, 1), Some((Area::Region, 0)));
    assert_eq!(map.locate(REGION_BASE + 0x10, 0x20), Some((Area::Region, 0x10)));
    assert_eq!(map.locate(REGION_BASE, REGION_LIMIT), Some((Area::Region, 0)));
    assert_eq!(
        map.locate(REGION_BASE + REGION_LIMIT - 1, 1),
        Some((Area::Region, REGION_LIMIT - 1))
    );
}

#[test]
fn locate_finds_the_user_stack() {
    let map = linked_map();
    assert_eq!(map.locate(USER_STACK_BASE, STACK_SIZE), Some((Area::UserStack, 0)));
    assert_eq!(map.locate(USER_STACK_BASE + 0x1ff0, 0x10), Some((Area::UserStack, 0x1ff0)));
}

#[test]
fn locate_refuses_what_leaves_an_area() {
    let map = linked_map();
    assert_eq!(map.locate(REGION_BASE - 1, 2), None);
    assert_eq!(map.locate(REGION_BASE + REGION_LIMIT - 1, 2), None);
    assert_eq!(map.locate(REGION_BASE, REGION_LIMIT + 1), None);
    assert_eq!(map.locate(USER_STACK_BASE - 1, 1), None);
    // The kernel stack is no memory of the program.
    assert_eq!(map.locate(KERNEL_STACK_BASE + 8, 8), None);
    // A range that runs from the user stack into the kernel stack.
    assert_eq!(map.locate(USER_STACK_BASE + STACK_SIZE - 4, 8), None);
    // A range that would wrap round the address space.
    assert_eq!(map.locate(u64::MAX, 2), None);
    assert_eq!(map.locate(REGION_BASE, u64::MAX), None);
}

#[test]
fn the_linked_map_uses_the_fixed_constants() {
    assert_eq!(APP_BASE_ADDRESS, 0x8040_0000);
    assert_eq!(APP_SIZE_LIMIT, 0x20000);
    assert_eq!(USER_STACK_SIZE, 8192);
    assert_eq!(KERNEL_STACK_SIZE, 8192);
    let map = MemoryMap::linked(0x8020_5000, 0x8020_7000).expect("sound layout");
    assert_eq!(map.region_base(), 0x8040_0000);
    assert_eq!(map.region_limit(), 0x20000);
    assert_eq!(map.user_stack_base(), 0x8020_5000);
    assert_eq!(map.user_stack_size(), 8192);
    assert_eq!(map.kernel_stack_base(), 0x8020_7000);
    assert_eq!(map.kernel_stack_size(), 8192);
    assert_eq!(map.user_stack_top(), 0x8020_7000);
    assert_eq!(map.kernel_stack_top(), 0x8020_9000);
}

#[test]
fn a_linked_map_with_stacks_in_the_region_is_refused() {
    assert_eq!(
        MemoryMap::linked(0x8040_1000, 0x8020_7000).unwrap_err(),
        LayoutError::Overlap
    );
    assert_eq!(
        MemoryMap::linked(0x8020_5000, 0x8020_6000).unwrap_err(),
        LayoutError::Overlap
    );
    assert_eq!(
        MemoryMap::linked(u64::MAX - 0x1000, 0x8020_7000).unwrap_err(),
        LayoutError::OutOfRange
    );
}
