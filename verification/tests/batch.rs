use batch_os::batch::{BatchController, Dispatch};
use batch_os::catalog::Catalog;
use batch_os::context::TrapContext;
use batch_os::layout::MemoryMap;
use batch_os::loader::LoadError;

const REGION_BASE: u64 = 0x8040_0000;
const USER_STACK_BASE: u64 = 0x8020_5000;
const KERNEL_STACK_BASE: u64 = 0x8020_7000;
const STACK_SIZE: u64 = 0x2000;

fn small_map(limit: u64) -> MemoryMap {
    MemoryMap::new(REGION_BASE, limit, USER_STACK_BASE, STACK_SIZE, KERNEL_STACK_BASE, STACK_SIZE)
        .expect("sound layout")
}

fn batch_image(programs: &[&[u8]]) -> Vec<u8> {
    let mut image: Vec<u8> = Vec::new();
    image.extend_from_slice(&(programs.len() as u64).to_le_bytes());
    let mut offset = 8 * (programs.len() as u64 + 2);
    image.extend_from_slice(&offset.to_le_bytes());
    for program in programs {
        offset += program.len() as u64;
        image.extend_from_slice(&offset.to_le_bytes());
    }
    for program in programs {
        image.extend_from_slice(program);
    }
    image
}

fn controller_of(limit: u64, programs: &[&[u8]]) -> BatchController {
    let catalog = Catalog::parse(batch_image(programs)).expect("sound image");
    BatchController::init(small_map(limit), catalog)
}

fn fresh(status: u64) -> TrapContext {
    let mut x = [0u64; 32];
    x[2] = USER_STACK_BASE + STACK_SIZE;
    TrapContext { x, sstatus: status, sepc: REGION_BASE, kernel_sp: KERNEL_STACK_BASE + STACK_SIZE }
}

#[test]
fn init_binds_the_catalog_and_starts_at_the_first_program() {
    let controller = controller_of(16, &[&[1], &[2, 3]]);
    assert_eq!(controller.current_index(), 0);
    assert_eq!(controller.count(), 2);
    assert!(!controller.is_running());
    assert_eq!(controller.region().held(), None);
    assert_eq!(controller.region().bytes(), &[0u8; 16][..]);
    assert_eq!(controller.region().limit(), 16);
    assert_eq!(controller.map().region_base(), REGION_BASE);
    assert_eq!(controller.catalog().count(), 2);
}

#[test]
fn run_next_loads_and_launches_each_program_in_turn() {
    let mut controller = controller_of(8, &[&[1, 2, 3, 4, 5], &[9, 8]]);
    assert_eq!(controller.run_next(0x120), Dispatch::Launch(fresh(0x020)));
    assert_eq!(controller.current_index(), 1);
    assert!(controller.is_running());
    assert_eq!(controller.region().bytes(), &[1u8, 2, 3, 4, 5, 0, 0, 0][..]);

    assert_eq!(controller.run_next(0x020), Dispatch::Launch(fresh(0x020)));
    assert_eq!(controller.current_index(), 2);
    assert!(controller.is_running());
    assert_eq!(controller.region().bytes(), &[9u8, 8, 0, 0, 0, 0, 0, 0][..]);

    assert_eq!(controller.run_next(0x020), Dispatch::Shutdown);
    assert_eq!(controller.current_index(), 2);
    assert!(!controller.is_running());
}

#[test]
fn run_next_after_the_last_program_shuts_down_again_and_again() {
    let mut controller = controller_of(8, &[&[7]]);
    assert!(matches!(controller.run_next(0), Dispatch::Launch(_)));
    for _ in 0..5 {
        assert_eq!(controller.run_next(0), Dispatch::Shutdown);
        assert_eq!(controller.current_index(), 1);
        assert_eq!(controller.current_index(), controller.count());
        assert_eq!(controller.region().bytes(), &[7u8, 0, 0, 0, 0, 0, 0, 0][..]);
        assert!(!controller.is_running());
    }
}

#[test]
fn a_batch_without_programs_shuts_down_at_once() {
    let mut controller = controller_of(8, &[]);
    assert_eq!(controller.run_next(0), Dispatch::Shutdown);
    assert_eq!(controller.current_index(), 0);
    assert_eq!(controller.run_next(0), Dispatch::Shutdown);
    assert_eq!(controller.current_index(), 0);
}

#[test]
fn the_cursor_never_moves_back() {
    let mut controller = controller_of(8, &[&[1], &[2], &[3]]);
    let mut last = controller.current_index();
    for _ in 0..8 {
        let _ = controller.run_next(0);
        assert!(controller.current_index() >= last);
        assert!(controller.current_index() <= controller.count());
        last = controller.current_index();
    }
    assert_eq!(last, 3);
}

#[test]
fn a_program_that_does_not_fit_halts_the_batch() {
    let mut controller = controller_of(4, &[&[1, 2], &[1, 2, 3, 4, 5], &[6]]);
    assert!(matches!(controller.run_next(0), Dispatch::Launch(_)));
    assert_eq!(
        controller.run_next(0),
        Dispatch::Halt(LoadError::ProgramTooLarge { length: 5, limit: 4 })
    );
    assert_eq!(controller.current_index(), 1);
    assert!(!controller.is_running());
    assert_eq!(controller.region().bytes(), &[1u8, 2, 0, 0][..]);
    // Asking again finds the same program, and halts again.
    assert_eq!(
        controller.run_next(0),
        Dispatch::Halt(LoadError::ProgramTooLarge { length: 5, limit: 4 })
    );
    assert_eq!(controller.current_index(), 1);
}

#[test]
fn a_program_that_fills_the_region_is_launched() {
    let mut controller = controller_of(4, &[&[1, 2, 3, 4]]);
    assert_eq!(controller.run_next(0), Dispatch::Launch(fresh(0)));
    assert_eq!(controller.region().bytes(), &[1u8, 2, 3, 4][..]);
    assert_eq!(controller.region().held(), Some(4));
}
