//! The batch controller: it runs the programs of the catalog one after
//! another, each in the execution region, until none is left.

use vstd::prelude::*;
use crate::catalog::Catalog;
use crate::context::{fresh_context, TrapContext};
use crate::layout::MemoryMap;
use crate::loader::{load, placed, ExecutionRegion, LoadError};

verus! {

/// What the driver does after the controller has advanced.
#[derive(Clone, Copy, Debug, PartialEq, Eq)]
pub enum Dispatch {
    /// The next program is in the execution region. The driver makes the
    /// region visible to instruction fetch and returns to reduced privilege
    /// with this context.
    Launch(TrapContext),
    /// Every program has run: the driver shuts the machine down.
    Shutdown,
    /// The next program cannot be loaded: the driver reports it and halts.
    Halt(LoadError),
}

/// The state of the batch: the catalog, the execution region and the index
/// of the next program to run. A value of this type is only made by
/// [`BatchController::init`], so it always satisfies
/// [`BatchController::wf`].
#[derive(Debug)]
pub struct BatchController {
    map: MemoryMap,
    catalog: Catalog,
    region: ExecutionRegion,
    current_index: usize,
    running: bool,
}

impl BatchController {
    /// The memory map.
    pub closed spec fn spec_map(&self) -> MemoryMap {
        self.map
    }

    /// The catalog.
    pub closed spec fn spec_catalog(&self) -> Catalog {
        self.catalog
    }

    /// The execution region.
    pub closed spec fn spec_region(&self) -> ExecutionRegion {
        self.region
    }

    /// The index of the next program to run; the number of programs once all
    /// have run.
    pub closed spec fn spec_current_index(&self) -> usize {
        self.current_index
    }

    /// True while a program runs, or the kernel handles a trap of it.
    pub closed spec fn spec_running(&self) -> bool {
        self.running
    }

    /// The index of the program that runs.
    pub open spec fn spec_current_program(&self) -> int {
        self.spec_current_index() - 1
    }

    /// The parts are sound and fit together: the region is as long as the
    /// map says, the cursor is at most the number of programs, and a program
    /// that runs is one that was loaded.
    pub open spec fn wf(&self) -> bool {
        &&& self.spec_map().wf()
        &&& self.spec_catalog().wf()
        &&& self.spec_region().wf()
        &&& self.spec_region().spec_limit() == self.spec_map().region_limit()
        &&& self.spec_current_index() <= self.spec_catalog().spec_count()
        &&& self.spec_running() ==> self.spec_current_index() >= 1 && self.spec_region().spec_held()
            is Some
    }

    /// True when every program has run.
    pub open spec fn spec_exhausted(&self) -> bool {
        self.spec_current_index() == self.spec_catalog().spec_count()
    }

    /// Binds the catalog and puts the cursor on the first program. The
    /// execution region starts empty.
    pub fn init(map: MemoryMap, catalog: Catalog) -> (controller: BatchController)
        requires
            map.wf(),
            catalog.wf(),
        ensures
            controller.wf(),
            controller.spec_map() == map,
            controller.spec_catalog() == catalog,
            controller.spec_current_index() == 0,
            !controller.spec_running(),
            controller.spec_region().spec_held() is None,
            controller.spec_region()@ == placed(Seq::<u8>::empty(), map.region_limit() as nat),
    {
        let region = ExecutionRegion::new(map.region_limit() as usize);
        BatchController { map, catalog, region, current_index: 0, running: false }
    }

    /// Advances to the next program. See [`advanced`] for what it does in
    /// each case. `status` is the hart's current status word.
    pub fn run_next(&mut self, status: u64) -> (dispatch: Dispatch)
        requires
            old(self).wf(),
        ensures
            final(self).wf(),
            advanced(*old(self), *final(self), status, dispatch),
            final(self).spec_current_index() >= old(self).spec_current_index(),
            final(self).spec_current_index() <= final(self).spec_catalog().spec_count(),
    {
        if self.current_index >= self.catalog.count() {
            self.running = false;
            return Dispatch::Shutdown;
        }
        match load(&mut self.region, &self.catalog, self.current_index) {
            Ok(()) => {
                let cx = TrapContext::app_init_context(
                    self.map.region_base(),
                    self.map.user_stack_top(),
                    self.map.kernel_stack_top(),
                    status,
                );
                self.current_index = self.current_index + 1;
                self.running = true;
                Dispatch::Launch(cx)
            },
            Err(e) => {
                self.running = false;
                Dispatch::Halt(e)
            },
        }
    }

    /// The memory map.
    pub fn map(&self) -> (map: &MemoryMap)
        ensures
            *map == self.spec_map(),
    {
        &self.map
    }

    /// The catalog.
    pub fn catalog(&self) -> (catalog: &Catalog)
        ensures
            *catalog == self.spec_catalog(),
    {
        &self.catalog
    }

    /// The execution region.
    pub fn region(&self) -> (region: &ExecutionRegion)
        ensures
            *region == self.spec_region(),
    {
        &self.region
    }

    /// The number of programs.
    pub fn count(&self) -> (n: usize)
        ensures
            n == self.spec_catalog().spec_count(),
    {
        self.catalog.count()
    }

    /// The index of the next program to run.
    #[verifier::when_used_as_spec(spec_current_index)]
    pub fn current_index(&self) -> (i: usize)
        ensures
            i == self.spec_current_index(),
    {
        self.current_index
    }

    /// True while a program runs, or the kernel handles a trap of it.
    #[verifier::when_used_as_spec(spec_running)]
    pub fn is_running(&self) -> (b: bool)
        ensures
            b == self.spec_running(),
    {
        self.running
    }
}

/// How `after` and `dispatch` follow from `before` when the controller
/// advances.
///
/// - Every program has run: the machine shuts down. Cursor and region stay
///   as they are, so that advancing again does the same.
/// - The next program fits the region: it is loaded, the cursor moves on by
///   one, and the program is launched with a fresh context: resume address
///   at the base of the region, stack pointer at the top of the user stack,
///   kernel stack pointer at the top of the kernel stack.
/// - The next program is too long: the kernel halts. Cursor and region stay
///   as they are.
pub open spec fn advanced(
    before: BatchController,
    after: BatchController,
    status: u64,
    dispatch: Dispatch,
) -> bool {
    let index = before.spec_current_index() as int;
    let catalog = before.spec_catalog();
    let limit = before.spec_region().spec_limit();
    &&& after.spec_map() == before.spec_map()
    &&& after.spec_catalog() == before.spec_catalog()
    &&& if before.spec_exhausted() {
        &&& dispatch is Shutdown
        &&& after.spec_current_index() == before.spec_current_index()
        &&& after.spec_region() == before.spec_region()
        &&& !after.spec_running()
    } else if catalog@[index].spec_length() <= limit {
        &&& dispatch matches Dispatch::Launch(cx)
        &&& cx@ == fresh_context(
            before.spec_map().region_base(),
            before.spec_map().spec_user_stack_top() as u64,
            before.spec_map().spec_kernel_stack_top() as u64,
            status,
        )
        &&& after.spec_current_index() == index + 1
        &&& after.spec_region()@ == placed(catalog.spec_program(index), limit)
        &&& after.spec_region().spec_held() == Some(catalog@[index].spec_length() as usize)
        &&& after.spec_running()
    } else {
        &&& dispatch matches Dispatch::Halt(e)
        &&& e == (LoadError::ProgramTooLarge {
            length: catalog@[index].spec_length() as usize,
            limit: limit as usize,
        })
        &&& after.spec_current_index() == before.spec_current_index()
        &&& after.spec_region() == before.spec_region()
        &&& !after.spec_running()
    }
}

/// Once every program has run, advancing shuts the machine down again and
/// again: each further step finds the controller exhausted, leaves cursor
/// and region as they are, and asks for shutdown.
pub proof fn lemma_shutdown_repeats(
    before: BatchController,
    after: BatchController,
    status: u64,
    dispatch: Dispatch,
)
    requires
        before.spec_exhausted(),
        advanced(before, after, status, dispatch),
    ensures
        dispatch is Shutdown,
        after.spec_exhausted(),
        after.spec_current_index() == before.spec_current_index(),
        after.spec_region() == before.spec_region(),
{
}

/// The cursor never moves back and never passes the number of programs: a
/// step leaves it where it was or moves it on by one.
pub proof fn lemma_cursor_only_advances(
    before: BatchController,
    after: BatchController,
    status: u64,
    dispatch: Dispatch,
)
    requires
        before.wf(),
        advanced(before, after, status, dispatch),
    ensures
        before.spec_current_index() <= after.spec_current_index() <= before.spec_current_index()
            + 1,
        after.spec_current_index() <= after.spec_catalog().spec_count(),
        after.spec_current_index() == before.spec_current_index() + 1 <==> dispatch is Launch,
{
}

} // verus!
