//! The trap handler: what the kernel does once a trap has brought it the
//! saved context of the running program.

use vstd::prelude::*;
use crate::batch::{advanced, BatchController, Dispatch};
use crate::context::{after_syscall, ContextView, TrapContext, REG_ARG1, REG_ARG2, REG_RESULT,
    REG_SYSCALL};
use crate::layout::MemoryMap;
use crate::syscall::{
    lemma_write_outside_is_rejected, may_name, syscall, syscall_outcome, Span, SyscallOutcome,
    REJECTED, SYSCALL_WRITE,
};

verus! {

/// Cause code of an instruction access fault.
pub const CAUSE_INSTRUCTION_ACCESS: u64 = 1;

/// Cause code of an illegal instruction.
pub const CAUSE_ILLEGAL_INSTRUCTION: u64 = 2;

/// Cause code of a load access fault.
pub const CAUSE_LOAD_ACCESS: u64 = 5;

/// Cause code of a store access fault.
pub const CAUSE_STORE_ACCESS: u64 = 7;

/// Cause code of a system call from reduced privilege.
pub const CAUSE_USER_CALL: u64 = 8;

/// Cause code of an instruction page fault.
pub const CAUSE_INSTRUCTION_PAGE: u64 = 12;

/// Cause code of a load page fault.
pub const CAUSE_LOAD_PAGE: u64 = 13;

/// Cause code of a store page fault.
pub const CAUSE_STORE_PAGE: u64 = 15;

/// Why the hart trapped.
#[derive(Clone, Copy, Debug, PartialEq, Eq, Structural)]
pub enum TrapCause {
    /// The program issued a system call.
    Syscall,
    /// The program executed an illegal instruction.
    IllegalInstruction,
    /// The program touched memory that it may not touch.
    MemoryFault,
}

/// Why the kernel abandoned a program.
#[derive(Clone, Copy, Debug, PartialEq, Eq, Structural)]
pub enum Fault {
    /// It executed an illegal instruction.
    IllegalInstruction,
    /// It touched memory that it may not touch.
    MemoryFault,
    /// It asked for a system call that the kernel does not know.
    UnsupportedSyscall {
        /// The number that the program gave.
        id: u64,
    },
}

/// A line for the kernel's log.
#[derive(Clone, Copy, Debug, PartialEq, Eq, Structural)]
pub enum Report {
    /// A program ended of its own accord.
    Exited {
        /// Index of the program.
        program: usize,
        /// Its termination status.
        code: i64,
    },
    /// The kernel abandoned a program.
    Killed {
        /// Index of the program.
        program: usize,
        /// What the program did.
        fault: Fault,
    },
}

/// How the driver leaves the trap handler.
#[derive(Clone, Copy, Debug, PartialEq, Eq)]
pub enum Control {
    /// Back to the program that trapped, with its context as the handler
    /// left it.
    Resume,
    /// The program that trapped is done with; the batch has advanced.
    Advance(Dispatch),
}

/// Everything that the driver does after a trap, in this order: send
/// `output` to the console, log `report`, follow `control`.
#[derive(Clone, Copy, Debug, PartialEq, Eq)]
pub struct TrapAction {
    /// Bytes of the program's memory that go to the console.
    pub output: Option<Span>,
    /// A line for the kernel's log.
    pub report: Option<Report>,
    /// Where control goes.
    pub control: Control,
}

/// What a trap comes to, before the batch is consulted.
#[derive(Clone, Copy, Debug, PartialEq, Eq, Structural)]
pub enum Verdict {
    /// The program goes on, with `value` as the result of its call.
    Resume {
        /// The result of the call.
        value: i64,
        /// Bytes that go to the console.
        output: Option<Span>,
    },
    /// The program has ended with the status `code`.
    Exited {
        /// The termination status.
        code: i64,
    },
    /// The program is abandoned.
    Killed {
        /// What the program did.
        fault: Fault,
    },
}

/// The cause that the cause word `scause` stands for, or `None` if the
/// kernel handles no such trap. Interrupts, which have the top bit set, are
/// among those it does not handle.
pub open spec fn decoded_cause(scause: u64) -> Option<TrapCause> {
    if scause == CAUSE_USER_CALL {
        Some(TrapCause::Syscall)
    } else if scause == CAUSE_ILLEGAL_INSTRUCTION {
        Some(TrapCause::IllegalInstruction)
    } else if scause == CAUSE_INSTRUCTION_ACCESS || scause == CAUSE_LOAD_ACCESS || scause
        == CAUSE_STORE_ACCESS || scause == CAUSE_INSTRUCTION_PAGE || scause == CAUSE_LOAD_PAGE
        || scause == CAUSE_STORE_PAGE {
        Some(TrapCause::MemoryFault)
    } else {
        None
    }
}

/// The argument words of the call that `cx` holds.
pub open spec fn call_args(cx: ContextView) -> Seq<u64> {
    seq![cx.x[REG_RESULT as int], cx.x[REG_ARG1 as int], cx.x[REG_ARG2 as int]]
}

/// What a trap of cause `cause` with the saved context `cx` comes to. A
/// system call is dispatched on its number and arguments; a call of an
/// unknown number is a fault like an illegal instruction.
pub open spec fn verdict(map: MemoryMap, cx: ContextView, cause: TrapCause) -> Verdict {
    match cause {
        TrapCause::Syscall => match syscall_outcome(
            map,
            cx.x[REG_SYSCALL as int],
            call_args(cx),
        ) {
            SyscallOutcome::Return { value, output } => Verdict::Resume { value, output },
            SyscallOutcome::Exit { code } => Verdict::Exited { code },
            SyscallOutcome::Unsupported { id } => Verdict::Killed {
                fault: Fault::UnsupportedSyscall { id },
            },
        },
        TrapCause::IllegalInstruction => Verdict::Killed { fault: Fault::IllegalInstruction },
        TrapCause::MemoryFault => Verdict::Killed { fault: Fault::MemoryFault },
    }
}

/// A program whose `write` names even one address outside its own memory
/// gets the rejection as the result of its call and goes on: nothing is
/// sent to the console, and the program is not abandoned.
pub proof fn lemma_rejected_write_goes_on(map: MemoryMap, cx: ContextView, a: int)
    requires
        map.wf(),
        cx.x[REG_SYSCALL as int] == SYSCALL_WRITE,
        cx.x[REG_ARG1 as int] <= a < cx.x[REG_ARG1 as int] + cx.x[REG_ARG2 as int],
        !may_name(map, a),
    ensures
        verdict(map, cx, TrapCause::Syscall) == (Verdict::Resume { value: REJECTED, output: None }),
{
    lemma_write_outside_is_rejected(
        map,
        cx.x[REG_RESULT as int],
        cx.x[REG_ARG1 as int],
        cx.x[REG_ARG2 as int],
        a,
    );
}

impl TrapCause {
    /// Reads a cause word of the hart.
    pub fn decode(scause: u64) -> (cause: Option<TrapCause>)
        ensures
            cause == decoded_cause(scause),
    {
        if scause == CAUSE_USER_CALL {
            Some(TrapCause::Syscall)
        } else if scause == CAUSE_ILLEGAL_INSTRUCTION {
            Some(TrapCause::IllegalInstruction)
        } else if scause == CAUSE_INSTRUCTION_ACCESS || scause == CAUSE_LOAD_ACCESS || scause
            == CAUSE_STORE_ACCESS || scause == CAUSE_INSTRUCTION_PAGE || scause == CAUSE_LOAD_PAGE
            || scause == CAUSE_STORE_PAGE {
            Some(TrapCause::MemoryFault)
        } else {
            None
        }
    }
}

/// Decides what a trap comes to.
pub fn judge(map: &MemoryMap, cx: &TrapContext, cause: TrapCause) -> (v: Verdict)
    requires
        map.wf(),
    ensures
        v == verdict(*map, cx@, cause),
{
    match cause {
        TrapCause::Syscall => match syscall(map, cx.syscall_id(), cx.syscall_args()) {
            SyscallOutcome::Return { value, output } => Verdict::Resume { value, output },
            SyscallOutcome::Exit { code } => Verdict::Exited { code },
            SyscallOutcome::Unsupported { id } => Verdict::Killed {
                fault: Fault::UnsupportedSyscall { id },
            },
        },
        TrapCause::IllegalInstruction => Verdict::Killed { fault: Fault::IllegalInstruction },
        TrapCause::MemoryFault => Verdict::Killed { fault: Fault::MemoryFault },
    }
}

/// Handles a trap of the running program, whose saved context is `cx`.
///
/// A system call that returns moves the resume address past the call and
/// puts the result into the result slot; the batch is left alone. An exit
/// or a fault is reported, the program is abandoned with its context, and
/// the batch advances.
pub fn trap_handler(controller: &mut BatchController, cx: &mut TrapContext, cause: TrapCause) -> (
    action: TrapAction
)
    requires
        old(controller).wf(),
        old(controller).spec_running(),
    ensures
        final(controller).wf(),
        match verdict(old(controller).spec_map(), old(cx)@, cause) {
            Verdict::Resume { value, output } => {
                &&& action.control is Resume
                &&& action.output == output
                &&& action.report is None
                &&& final(cx)@ == after_syscall(old(cx)@, value)
                &&& *final(controller) == *old(controller)
            },
            Verdict::Exited { code } => {
                &&& action.output is None
                &&& action.report == Some(
                    Report::Exited {
                        program: old(controller).spec_current_program() as usize,
                        code,
                    },
                )
                &&& action.control matches Control::Advance(dispatch)
                &&& advanced(*old(controller), *final(controller), old(cx)@.sstatus, dispatch)
                &&& *final(cx) == *old(cx)
            },
            Verdict::Killed { fault } => {
                &&& action.output is None
                &&& action.report == Some(
                    Report::Killed {
                        program: old(controller).spec_current_program() as usize,
                        fault,
                    },
                )
                &&& action.control matches Control::Advance(dispatch)
                &&& advanced(*old(controller), *final(controller), old(cx)@.sstatus, dispatch)
                &&& *final(cx) == *old(cx)
            },
        },
{
    let program: usize = controller.current_index() - 1;
    match judge(controller.map(), cx, cause) {
        Verdict::Resume { value, output } => {
            cx.skip_call();
            cx.set_result(value);
            TrapAction { output, report: None, control: Control::Resume }
        },
        Verdict::Exited { code } => {
            let dispatch = controller.run_next(cx.sstatus);
            TrapAction {
                output: None,
                report: Some(Report::Exited { program, code }),
                control: Control::Advance(dispatch),
            }
        },
        Verdict::Killed { fault } => {
            let dispatch = controller.run_next(cx.sstatus);
            TrapAction {
                output: None,
                report: Some(Report::Killed { program, fault }),
                control: Control::Advance(dispatch),
            }
        },
    }
}

} // verus!
