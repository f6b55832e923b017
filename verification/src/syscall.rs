//! The system calls: `write` and `exit`.
//!
//! A call carries a number and three argument words. `write` decides which
//! bytes, if any, go to the console; sending them is left to the driver.

use vstd::prelude::*;
use crate::context::{signed_value, to_signed};
use crate::layout::{Area, MemoryMap};

verus! {

/// Number of the system call `write`.
pub const SYSCALL_WRITE: u64 = 64;

/// Number of the system call `exit`.
pub const SYSCALL_EXIT: u64 = 93;

/// The file descriptor of the standard output stream.
pub const FD_STDOUT: u64 = 1;

/// The result of a call that was rejected.
pub const REJECTED: i64 = -1;

/// A run of bytes of the running program's memory.
#[derive(Clone, Copy, Debug, PartialEq, Eq, Structural)]
pub struct Span {
    /// The area that holds the bytes.
    pub area: Area,
    /// Position of the first byte within the area.
    pub offset: u64,
    /// Number of bytes.
    pub len: u64,
}

/// What the kernel does about a system call.
#[derive(Clone, Copy, Debug, PartialEq, Eq, Structural)]
pub enum SyscallOutcome {
    /// The program goes on with `value` as the result of the call. The bytes
    /// of `output`, if any, go to the console first.
    Return {
        /// The result of the call.
        value: i64,
        /// The bytes that the call sends to the console.
        output: Option<Span>,
    },
    /// The program has ended with the status `code`.
    Exit {
        /// The termination status.
        code: i64,
    },
    /// The kernel knows no call of the number `id`.
    Unsupported {
        /// The number that the program gave.
        id: u64,
    },
}

/// The position of `ptr` within `area`.
pub open spec fn offset_in(map: MemoryMap, area: Area, ptr: u64) -> int {
    match area {
        Area::Region => ptr - map.region_base(),
        Area::UserStack => ptr - map.user_stack_base(),
    }
}

/// What `write(fd, ptr, len)` does. A descriptor other than the standard
/// output is rejected. An empty request succeeds and sends nothing. Any
/// other request succeeds only if all of `[ptr, ptr + len)` lies within the
/// execution region or within the user stack; it then sends those bytes and
/// returns their number.
pub open spec fn write_outcome(map: MemoryMap, fd: u64, ptr: u64, len: u64) -> SyscallOutcome {
    if fd != FD_STDOUT {
        SyscallOutcome::Return { value: REJECTED, output: None }
    } else if len == 0 {
        SyscallOutcome::Return { value: 0, output: None }
    } else {
        match map.spec_locate(ptr as int, len as int) {
            Some(area) => SyscallOutcome::Return {
                value: len as i64,
                output: Some(Span { area, offset: offset_in(map, area, ptr) as u64, len }),
            },
            None => SyscallOutcome::Return { value: REJECTED, output: None },
        }
    }
}

/// What `exit` does with the argument word `code`: the program ends, and
/// its status is the word read as a signed value.
pub open spec fn exit_outcome(code: u64) -> SyscallOutcome {
    SyscallOutcome::Exit { code: signed_value(code) as i64 }
}

/// What the call of number `id` with the argument words `args` does.
pub open spec fn syscall_outcome(map: MemoryMap, id: u64, args: Seq<u64>) -> SyscallOutcome {
    if id == SYSCALL_WRITE {
        write_outcome(map, args[0], args[1], args[2])
    } else if id == SYSCALL_EXIT {
        exit_outcome(args[0])
    } else {
        SyscallOutcome::Unsupported { id }
    }
}

/// True when the program may name the address `a`.
pub open spec fn may_name(map: MemoryMap, a: int) -> bool {
    map.in_region(a, 1) || map.in_user_stack(a, 1)
}

/// Decides a `write` of the `len` bytes at `ptr` to the descriptor `fd`.
pub fn sys_write(map: &MemoryMap, fd: u64, ptr: u64, len: u64) -> (r: SyscallOutcome)
    requires
        map.wf(),
    ensures
        r == write_outcome(*map, fd, ptr, len),
{
    if fd != FD_STDOUT {
        return SyscallOutcome::Return { value: REJECTED, output: None };
    }
    if len == 0 {
        return SyscallOutcome::Return { value: 0, output: None };
    }
    match map.locate(ptr, len) {
        Some((area, offset)) => SyscallOutcome::Return {
            value: len as i64,
            output: Some(Span { area, offset, len }),
        },
        None => SyscallOutcome::Return { value: REJECTED, output: None },
    }
}

/// Decides an `exit` with the argument word `code`.
pub fn sys_exit(code: u64) -> (r: SyscallOutcome)
    ensures
        r == exit_outcome(code),
{
    SyscallOutcome::Exit { code: to_signed(code) }
}

/// Decides the call of number `id` with the argument words `args`.
pub fn syscall(map: &MemoryMap, id: u64, args: [u64; 3]) -> (r: SyscallOutcome)
    requires
        map.wf(),
    ensures
        r == syscall_outcome(*map, id, args@),
{
    if id == SYSCALL_WRITE {
        sys_write(map, args[0], args[1], args[2])
    } else if id == SYSCALL_EXIT {
        sys_exit(args[0])
    } else {
        SyscallOutcome::Unsupported { id }
    }
}

/// A `write` whose range holds even one address that the program may not
/// name is rejected and sends nothing.
pub proof fn lemma_write_outside_is_rejected(map: MemoryMap, fd: u64, ptr: u64, len: u64, a: int)
    requires
        map.wf(),
        ptr <= a < ptr + len,
        !may_name(map, a),
    ensures
        write_outcome(map, fd, ptr, len) == (SyscallOutcome::Return {
            value: REJECTED,
            output: None,
        }),
{
}

/// A `write` of no bytes to the standard output returns zero and sends
/// nothing, whatever its pointer.
pub proof fn lemma_empty_write_succeeds(map: MemoryMap, ptr: u64)
    ensures
        write_outcome(map, FD_STDOUT, ptr, 0) == (SyscallOutcome::Return {
            value: 0,
            output: None,
        }),
{
}

/// A `write` that succeeds with output sends exactly the bytes it was asked
/// for: as many as it returns, all of them within one area of the program's
/// own memory.
pub proof fn lemma_write_sends_what_was_asked(map: MemoryMap, fd: u64, ptr: u64, len: u64)
    requires
        map.wf(),
        write_outcome(map, fd, ptr, len) matches SyscallOutcome::Return { output: Some(_), .. },
    ensures
        fd == FD_STDOUT,
        len > 0,
        write_outcome(map, fd, ptr, len) matches SyscallOutcome::Return {
            value,
            output: Some(span),
        } && {
            &&& value == len
            &&& span.len == len
            &&& map.spec_locate(ptr as int, len as int) == Some(span.area)
            &&& span.area == Area::Region ==> span.offset + len <= map.region_limit()
                && map.region_base() + span.offset == ptr
            &&& span.area == Area::UserStack ==> span.offset + len <= map.user_stack_size()
                && map.user_stack_base() + span.offset == ptr
        },
        forall|a: int| ptr <= a < ptr + len ==> may_name(map, a),
{
}

} // verus!
