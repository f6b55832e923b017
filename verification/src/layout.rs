//! The fixed memory map: where the execution region and the two stacks lie.

use vstd::prelude::*;

verus! {

/// Address at which every program is placed and entered.
pub const APP_BASE_ADDRESS: u64 = 0x8040_0000;

/// Size limit of a program, in bytes.
pub const APP_SIZE_LIMIT: u64 = 0x2_0000;

/// Size of the user stack, in bytes.
pub const USER_STACK_SIZE: u64 = 0x2000;

/// Size of the kernel stack, in bytes.
pub const KERNEL_STACK_SIZE: u64 = 0x2000;

/// Number of 8-byte words in a saved trap context: 32 registers, the status
/// snapshot, the resume address and the kernel stack pointer.
pub const TRAP_FRAME_WORDS: u64 = 35;

/// Size in bytes of a saved trap context on the kernel stack.
pub const TRAP_FRAME_BYTES: u64 = 280;

/// Largest value of a signed 64-bit system-call result.
pub const RESULT_MAX: u64 = 0x7fff_ffff_ffff_ffff;

/// Why a proposed memory map was refused.
#[derive(Clone, Copy, Debug, PartialEq, Eq, Structural)]
pub enum LayoutError {
    /// An area reaches past the end of the address space, or the execution
    /// region is longer than this machine can index.
    OutOfRange,
    /// The execution region or the user stack is longer than a system-call
    /// result can count.
    TooLong,
    /// The kernel stack cannot hold one trap context.
    KernelStackTooSmall,
    /// Two of the three areas share an address.
    Overlap,
}

/// One of the two areas of memory that a running program may name.
#[derive(Clone, Copy, Debug, PartialEq, Eq, Structural)]
pub enum Area {
    /// The execution region.
    Region,
    /// The user stack.
    UserStack,
}

/// True when `[ptr, ptr + len)` lies entirely within `[base, base + size)`.
pub open spec fn within(ptr: int, len: int, base: int, size: int) -> bool {
    base <= ptr && ptr + len <= base + size
}

/// True when `[a, a + a_size)` and `[b, b + b_size)` share no address.
pub open spec fn disjoint(a: int, a_size: int, b: int, b_size: int) -> bool {
    a + a_size <= b || b + b_size <= a
}

/// True when every area ends within the 64-bit address space and the
/// execution region can be indexed on this machine.
pub open spec fn areas_in_range(
    region_base: int,
    region_limit: int,
    user_stack_base: int,
    user_stack_size: int,
    kernel_stack_base: int,
    kernel_stack_size: int,
) -> bool {
    &&& region_base + region_limit <= u64::MAX
    &&& user_stack_base + user_stack_size <= u64::MAX
    &&& kernel_stack_base + kernel_stack_size <= u64::MAX
    &&& region_limit <= usize::MAX
}

/// True when no two of the three areas share an address.
pub open spec fn areas_apart(
    region_base: int,
    region_limit: int,
    user_stack_base: int,
    user_stack_size: int,
    kernel_stack_base: int,
    kernel_stack_size: int,
) -> bool {
    &&& disjoint(region_base, region_limit, user_stack_base, user_stack_size)
    &&& disjoint(region_base, region_limit, kernel_stack_base, kernel_stack_size)
    &&& disjoint(user_stack_base, user_stack_size, kernel_stack_base, kernel_stack_size)
}

/// The defect of a proposed memory map, or `None` when it is usable. Where a
/// map has several defects, the first in the order of [`LayoutError`] is
/// named.
pub open spec fn layout_defect(
    region_base: int,
    region_limit: int,
    user_stack_base: int,
    user_stack_size: int,
    kernel_stack_base: int,
    kernel_stack_size: int,
) -> Option<LayoutError> {
    if !areas_in_range(
        region_base,
        region_limit,
        user_stack_base,
        user_stack_size,
        kernel_stack_base,
        kernel_stack_size,
    ) {
        Some(LayoutError::OutOfRange)
    } else if region_limit > RESULT_MAX || user_stack_size > RESULT_MAX {
        Some(LayoutError::TooLong)
    } else if kernel_stack_size < TRAP_FRAME_BYTES {
        Some(LayoutError::KernelStackTooSmall)
    } else if !areas_apart(
        region_base,
        region_limit,
        user_stack_base,
        user_stack_size,
        kernel_stack_base,
        kernel_stack_size,
    ) {
        Some(LayoutError::Overlap)
    } else {
        None
    }
}

/// The memory map that the kernel was linked with. A value of this type is
/// only made by [`MemoryMap::new`], so it always satisfies [`MemoryMap::wf`].
#[derive(Clone, Copy, Debug)]
pub struct MemoryMap {
    region_base: u64,
    region_limit: u64,
    user_stack_base: u64,
    user_stack_size: u64,
    kernel_stack_base: u64,
    kernel_stack_size: u64,
}

impl MemoryMap {
    /// Lowest address of the execution region.
    pub closed spec fn spec_region_base(&self) -> u64 {
        self.region_base
    }

    /// Size limit of the execution region, in bytes.
    pub closed spec fn spec_region_limit(&self) -> u64 {
        self.region_limit
    }

    /// Lowest address of the user stack.
    pub closed spec fn spec_user_stack_base(&self) -> u64 {
        self.user_stack_base
    }

    /// Size of the user stack, in bytes.
    pub closed spec fn spec_user_stack_size(&self) -> u64 {
        self.user_stack_size
    }

    /// Lowest address of the kernel stack.
    pub closed spec fn spec_kernel_stack_base(&self) -> u64 {
        self.kernel_stack_base
    }

    /// Size of the kernel stack, in bytes.
    pub closed spec fn spec_kernel_stack_size(&self) -> u64 {
        self.kernel_stack_size
    }

    /// The map has no defect.
    pub open spec fn wf(&self) -> bool {
        layout_defect(
            self.region_base() as int,
            self.region_limit() as int,
            self.user_stack_base() as int,
            self.user_stack_size() as int,
            self.kernel_stack_base() as int,
            self.kernel_stack_size() as int,
        ) is None
    }

    /// Address just above the user stack: where a fresh user stack starts.
    pub open spec fn spec_user_stack_top(&self) -> int {
        self.user_stack_base() + self.user_stack_size()
    }

    /// Address just above the kernel stack: where the kernel stack pointer
    /// rests while a program runs.
    pub open spec fn spec_kernel_stack_top(&self) -> int {
        self.kernel_stack_base() + self.kernel_stack_size()
    }

    /// Address of the trap context that a trap pushes on the kernel stack.
    pub open spec fn spec_trap_frame(&self) -> int {
        self.spec_kernel_stack_top() - TRAP_FRAME_BYTES
    }

    /// True when `[ptr, ptr + len)` lies entirely within the execution region.
    pub open spec fn in_region(&self, ptr: int, len: int) -> bool {
        within(ptr, len, self.region_base() as int, self.region_limit() as int)
    }

    /// True when `[ptr, ptr + len)` lies entirely within the user stack.
    pub open spec fn in_user_stack(&self, ptr: int, len: int) -> bool {
        within(ptr, len, self.user_stack_base() as int, self.user_stack_size() as int)
    }

    /// True when `[ptr, ptr + len)` lies entirely within the kernel stack.
    pub open spec fn in_kernel_stack(&self, ptr: int, len: int) -> bool {
        within(ptr, len, self.kernel_stack_base() as int, self.kernel_stack_size() as int)
    }

    /// The area that holds all of `[ptr, ptr + len)`, if one does. A range
    /// that both areas could hold (an empty one on their common border) is
    /// given to the execution region.
    pub open spec fn spec_locate(&self, ptr: int, len: int) -> Option<Area> {
        if self.in_region(ptr, len) {
            Some(Area::Region)
        } else if self.in_user_stack(ptr, len) {
            Some(Area::UserStack)
        } else {
            None
        }
    }

    /// Checks the six constants of the linked layout and makes a map of
    /// them, or says what is wrong with them.
    pub fn new(
        region_base: u64,
        region_limit: u64,
        user_stack_base: u64,
        user_stack_size: u64,
        kernel_stack_base: u64,
        kernel_stack_size: u64,
    ) -> (r: Result<MemoryMap, LayoutError>)
        ensures
            match r {
                Ok(map) => {
                    &&& map.wf()
                    &&& map.region_base() == region_base
                    &&& map.region_limit() == region_limit
                    &&& map.user_stack_base() == user_stack_base
                    &&& map.user_stack_size() == user_stack_size
                    &&& map.kernel_stack_base() == kernel_stack_base
                    &&& map.kernel_stack_size() == kernel_stack_size
                    &&& layout_defect(
                        region_base as int,
                        region_limit as int,
                        user_stack_base as int,
                        user_stack_size as int,
                        kernel_stack_base as int,
                        kernel_stack_size as int,
                    ) is None
                },
                Err(e) => layout_defect(
                    region_base as int,
                    region_limit as int,
                    user_stack_base as int,
                    user_stack_size as int,
                    kernel_stack_base as int,
                    kernel_stack_size as int,
                ) == Some(e),
            },
    {
        if region_limit > u64::MAX - region_base || user_stack_size > u64::MAX - user_stack_base
            || kernel_stack_size > u64::MAX - kernel_stack_base || region_limit
            > usize::MAX as u64 {
            return Err(LayoutError::OutOfRange);
        }
        if region_limit > RESULT_MAX || user_stack_size > RESULT_MAX {
            return Err(LayoutError::TooLong);
        }
        if kernel_stack_size < TRAP_FRAME_BYTES {
            return Err(LayoutError::KernelStackTooSmall);
        }
        let region_end: u64 = region_base + region_limit;
        let user_end: u64 = user_stack_base + user_stack_size;
        let kernel_end: u64 = kernel_stack_base + kernel_stack_size;
        let apart: bool = (region_end <= user_stack_base || user_end <= region_base) && (region_end
            <= kernel_stack_base || kernel_end <= region_base) && (user_end <= kernel_stack_base
            || kernel_end <= user_stack_base);
        if !apart {
            return Err(LayoutError::Overlap);
        }
        Ok(
            MemoryMap {
                region_base,
                region_limit,
                user_stack_base,
                user_stack_size,
                kernel_stack_base,
                kernel_stack_size,
            },
        )
    }

    /// The map of the kernel as it is built: the execution region at
    /// [`APP_BASE_ADDRESS`] with [`APP_SIZE_LIMIT`] bytes, and two stacks of
    /// [`USER_STACK_SIZE`] and [`KERNEL_STACK_SIZE`] bytes at the addresses
    /// that the linker gave them.
    pub fn linked(user_stack_base: u64, kernel_stack_base: u64) -> (r: Result<
        MemoryMap,
        LayoutError,
    >)
        ensures
            match r {
                Ok(map) => {
                    &&& map.wf()
                    &&& map.region_base() == APP_BASE_ADDRESS
                    &&& map.region_limit() == APP_SIZE_LIMIT
                    &&& map.user_stack_base() == user_stack_base
                    &&& map.user_stack_size() == USER_STACK_SIZE
                    &&& map.kernel_stack_base() == kernel_stack_base
                    &&& map.kernel_stack_size() == KERNEL_STACK_SIZE
                },
                Err(e) => layout_defect(
                    APP_BASE_ADDRESS as int,
                    APP_SIZE_LIMIT as int,
                    user_stack_base as int,
                    USER_STACK_SIZE as int,
                    kernel_stack_base as int,
                    KERNEL_STACK_SIZE as int,
                ) == Some(e),
            },
    {
        MemoryMap::new(
            APP_BASE_ADDRESS,
            APP_SIZE_LIMIT,
            user_stack_base,
            USER_STACK_SIZE,
            kernel_stack_base,
            KERNEL_STACK_SIZE,
        )
    }

    /// Lowest address of the execution region.
    #[verifier::when_used_as_spec(spec_region_base)]
    pub fn region_base(&self) -> (r: u64)
        ensures
            r == self.spec_region_base(),
    {
        self.region_base
    }

    /// Size limit of the execution region, in bytes.
    #[verifier::when_used_as_spec(spec_region_limit)]
    pub fn region_limit(&self) -> (r: u64)
        ensures
            r == self.spec_region_limit(),
    {
        self.region_limit
    }

    /// Lowest address of the user stack.
    #[verifier::when_used_as_spec(spec_user_stack_base)]
    pub fn user_stack_base(&self) -> (r: u64)
        ensures
            r == self.spec_user_stack_base(),
    {
        self.user_stack_base
    }

    /// Size of the user stack, in bytes.
    #[verifier::when_used_as_spec(spec_user_stack_size)]
    pub fn user_stack_size(&self) -> (r: u64)
        ensures
            r == self.spec_user_stack_size(),
    {
        self.user_stack_size
    }

    /// Lowest address of the kernel stack.
    #[verifier::when_used_as_spec(spec_kernel_stack_base)]
    pub fn kernel_stack_base(&self) -> (r: u64)
        ensures
            r == self.spec_kernel_stack_base(),
    {
        self.kernel_stack_base
    }

    /// Size of the kernel stack, in bytes.
    #[verifier::when_used_as_spec(spec_kernel_stack_size)]
    pub fn kernel_stack_size(&self) -> (r: u64)
        ensures
            r == self.spec_kernel_stack_size(),
    {
        self.kernel_stack_size
    }

    /// Address just above the user stack.
    pub fn user_stack_top(&self) -> (r: u64)
        requires
            self.wf(),
        ensures
            r == self.spec_user_stack_top(),
    {
        self.user_stack_base + self.user_stack_size
    }

    /// Address just above the kernel stack.
    pub fn kernel_stack_top(&self) -> (r: u64)
        requires
            self.wf(),
        ensures
            r == self.spec_kernel_stack_top(),
    {
        self.kernel_stack_base + self.kernel_stack_size
    }

    /// Address of the trap context that a trap pushes on the kernel stack.
    pub fn trap_frame(&self) -> (r: u64)
        requires
            self.wf(),
        ensures
            r == self.spec_trap_frame(),
            self.in_kernel_stack(r as int, TRAP_FRAME_BYTES as int),
    {
        self.kernel_stack_base + self.kernel_stack_size - TRAP_FRAME_BYTES
    }

    /// Finds the area that holds all of the `len` bytes at `ptr`, and the
    /// position of `ptr` within that area.
    pub fn locate(&self, ptr: u64, len: u64) -> (r: Option<(Area, u64)>)
        requires
            self.wf(),
        ensures
            match r {
                Some((area, offset)) => {
                    &&& self.spec_locate(ptr as int, len as int) == Some(area)
                    &&& area == Area::Region ==> offset == ptr - self.region_base()
                    &&& area == Area::UserStack ==> offset == ptr - self.user_stack_base()
                },
                None => self.spec_locate(ptr as int, len as int) is None,
            },
    {
        if ptr >= self.region_base && ptr - self.region_base <= self.region_limit && len
            <= self.region_limit - (ptr - self.region_base) {
            Some((Area::Region, ptr - self.region_base))
        } else if ptr >= self.user_stack_base && ptr - self.user_stack_base
            <= self.user_stack_size && len <= self.user_stack_size - (ptr
            - self.user_stack_base) {
            Some((Area::UserStack, ptr - self.user_stack_base))
        } else {
            None
        }
    }
}

/// The frame of a trap context lies on the kernel stack and touches neither
/// the user stack nor the execution region.
pub proof fn lemma_trap_frame_is_kernel_only(map: MemoryMap)
    requires
        map.wf(),
    ensures
        map.in_kernel_stack(map.spec_trap_frame(), TRAP_FRAME_BYTES as int),
        disjoint(
            map.spec_trap_frame(),
            TRAP_FRAME_BYTES as int,
            map.user_stack_base() as int,
            map.user_stack_size() as int,
        ),
        disjoint(
            map.spec_trap_frame(),
            TRAP_FRAME_BYTES as int,
            map.region_base() as int,
            map.region_limit() as int,
        ),
{
}

/// A range that a program may name never reaches into the kernel stack,
/// unless it is empty.
pub proof fn lemma_permitted_range_avoids_kernel_stack(map: MemoryMap, ptr: int, len: int)
    requires
        map.wf(),
        len > 0,
        map.spec_locate(ptr, len) is Some,
    ensures
        disjoint(ptr, len, map.kernel_stack_base() as int, map.kernel_stack_size() as int),
{
}

} // verus!
