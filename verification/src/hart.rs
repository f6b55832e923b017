//! The privilege switch of the hart: a machine of two states, `User` and
//! `Kernel`, and the two transitions between them.
//!
//! A trap swaps the stack pointer to the kernel stack first and saves the
//! program's registers second, so that the saved context lies on the kernel
//! stack. A return reads the whole context first and swaps the stack pointer
//! back last.

use vstd::prelude::*;
use crate::context::{
    after_call, after_syscall, fresh_context, lemma_user_status_is_stable, returns_to_user,
    user_status, with_user_privilege, word_value, ContextView, TrapContext, REGISTERS,
    REG_RESULT, REG_SP, STATUS_PREVIOUS_PRIVILEGE,
};
use crate::layout::{disjoint, MemoryMap, TRAP_FRAME_BYTES};

verus! {

/// The two states of the hart.
#[derive(Clone, Copy, Debug, PartialEq, Eq, Structural)]
pub enum Privilege {
    /// Reduced privilege: a program runs.
    User,
    /// Full privilege: the kernel handles a trap, or boots.
    Kernel,
}

/// The mathematical content of a [`Hart`].
pub struct HartView {
    /// The 32 general registers; `x[2]` is the active stack pointer.
    pub x: Seq<u64>,
    /// The program counter.
    pub pc: u64,
    /// The status word.
    pub status: u64,
    /// The scratch word: it holds the pointer of the stack that is not
    /// active.
    pub scratch: u64,
    /// The address that a trap transfers control to.
    pub trap_vector: u64,
    /// The state of the hart.
    pub privilege: Privilege,
}

/// The registers of the hart that take part in a privilege switch.
#[derive(Clone, Copy, Debug, PartialEq, Eq)]
pub struct Hart {
    /// The 32 general registers; `x[2]` is the active stack pointer.
    pub x: [u64; 32],
    /// The program counter.
    pub pc: u64,
    /// The status word.
    pub status: u64,
    /// The scratch word: it holds the pointer of the stack that is not
    /// active.
    pub scratch: u64,
    /// The address that a trap transfers control to.
    pub trap_vector: u64,
    /// The state of the hart.
    pub privilege: Privilege,
}

impl View for Hart {
    type V = HartView;

    open spec fn view(&self) -> HartView {
        HartView {
            x: self.x@,
            pc: self.pc,
            status: self.status,
            scratch: self.scratch,
            trap_vector: self.trap_vector,
            privilege: self.privilege,
        }
    }
}

/// True when `h` runs a program and its scratch word leaves room for a trap
/// context below it.
pub open spec fn can_trap(h: HartView) -> bool {
    &&& h.x.len() == REGISTERS
    &&& h.privilege == Privilege::User
    &&& h.scratch >= TRAP_FRAME_BYTES
}

/// The context that a trap taken in state `h` saves: every register of the
/// program as it was, its own stack pointer among them; the address at which
/// it stopped; a status that returns to reduced privilege; the kernel stack
/// pointer that the trap found in the scratch word.
pub open spec fn saved_context(h: HartView) -> ContextView {
    ContextView { x: h.x, sstatus: user_status(h.status), sepc: h.pc, kernel_sp: h.scratch }
}

/// The hart after a trap taken in state `h`: full privilege, at the trap
/// vector, with the active stack pointer at the saved context on the kernel
/// stack and the program's stack pointer parked in the scratch word.
pub open spec fn after_entry(h: HartView) -> HartView {
    HartView {
        x: h.x.update(REG_SP as int, (h.scratch - TRAP_FRAME_BYTES) as u64),
        pc: h.trap_vector,
        status: user_status(h.status),
        scratch: h.x[REG_SP as int],
        privilege: Privilege::Kernel,
        ..h
    }
}

/// The privilege that a return under `status` lands in.
pub open spec fn privilege_after_return(status: u64) -> Privilege {
    if returns_to_user(status) {
        Privilege::User
    } else {
        Privilege::Kernel
    }
}

/// The hart after a return from state `h` with context `cx`: at the resume
/// address, in the privilege that the context's status names, with every
/// register as the context holds it and the kernel stack pointer parked in
/// the scratch word.
pub open spec fn after_return(h: HartView, cx: ContextView) -> HartView {
    HartView {
        x: cx.x,
        pc: cx.sepc,
        status: cx.sstatus,
        scratch: cx.kernel_sp,
        privilege: privilege_after_return(cx.sstatus),
        ..h
    }
}

impl Hart {
    /// The hart as the firmware hands it over: full privilege, every
    /// register zero, no trap vector installed.
    pub fn boot(status: u64) -> (hart: Hart)
        ensures
            hart@.privilege == Privilege::Kernel,
            hart@.status == status,
            hart@.pc == 0,
            hart@.scratch == 0,
            hart@.trap_vector == 0,
            hart@.x == Seq::new(REGISTERS as nat, |i: int| 0u64),
    {
        Hart {
            x: [0u64; 32],
            pc: 0,
            status,
            scratch: 0,
            trap_vector: 0,
            privilege: Privilege::Kernel,
        }
    }

    /// Installs `entry` as the address that every trap transfers control to.
    pub fn init(&mut self, entry: u64)
        ensures
            final(self)@ == (HartView { trap_vector: entry, ..old(self)@ }),
    {
        self.trap_vector = entry;
    }

    /// The transition from `User` to `Kernel`: takes a trap. The stack
    /// pointer is swapped with the scratch word before anything is saved;
    /// the saved context is returned.
    pub fn trap_entry(&mut self) -> (cx: TrapContext)
        requires
            can_trap(old(self)@),
        ensures
            final(self)@ == after_entry(old(self)@),
            cx@ == saved_context(old(self)@),
    {
        // The hart: note where the program stopped, take full privilege.
        let resume: u64 = self.pc;
        self.status = with_user_privilege(self.status);
        self.privilege = Privilege::Kernel;
        self.pc = self.trap_vector;
        // Swap to the kernel stack.
        let user_sp: u64 = self.x[REG_SP];
        let kernel_sp: u64 = self.scratch;
        self.x[REG_SP] = kernel_sp;
        self.scratch = user_sp;
        // Make room on the kernel stack and save.
        self.x[REG_SP] = kernel_sp - TRAP_FRAME_BYTES;
        let mut cx = TrapContext { x: self.x, sstatus: self.status, sepc: resume, kernel_sp };
        cx.x[REG_SP] = self.scratch;
        assert(cx@.x =~= old(self)@.x);
        assert(self@.x =~= after_entry(old(self)@).x);
        cx
    }

    /// The transition from `Kernel` to `User`: returns to the program that
    /// `cx` describes. Everything is read from the context before the stack
    /// pointer is swapped back. The hart lands in reduced privilege where
    /// the context's status says so, as that of every saved and every fresh
    /// context does.
    pub fn trap_return(&mut self, cx: &TrapContext)
        requires
            old(self)@.privilege == Privilege::Kernel,
        ensures
            final(self)@ == after_return(old(self)@, cx@),
            returns_to_user(cx@.sstatus) ==> final(self)@.privilege == Privilege::User,
    {
        // Read status, resume address and registers; the program's stack
        // pointer goes to the scratch word, the frame is released.
        self.status = cx.sstatus;
        let resume: u64 = cx.sepc;
        let user_sp: u64 = cx.x[REG_SP];
        self.x = cx.x;
        self.x[REG_SP] = cx.kernel_sp;
        self.scratch = user_sp;
        // Swap back to the user stack.
        let kernel_sp: u64 = self.x[REG_SP];
        self.x[REG_SP] = self.scratch;
        self.scratch = kernel_sp;
        // The hart: drop to the privilege that the status names, at the
        // resume address.
        self.privilege = if self.status & STATUS_PREVIOUS_PRIVILEGE == 0 {
            Privilege::User
        } else {
            Privilege::Kernel
        };
        self.pc = resume;
        assert(self@.x =~= cx@.x);
    }
}

/// A trap followed at once by a return with the saved context puts the
/// program back exactly where it was: every register, the program counter
/// and the scratch word are as before the trap, and so is the status word
/// but for the bit that records the privilege to return to.
pub proof fn lemma_trap_round_trip(h: HartView)
    requires
        can_trap(h),
    ensures
        after_return(after_entry(h), saved_context(h)) == (HartView {
            status: user_status(h.status),
            ..h
        }),
        can_trap(after_return(after_entry(h), saved_context(h))),
{
    lemma_user_status_is_stable(h.status);
}

/// Where the kernel changes nothing of a saved context but the result slot
/// and the resume address, the program resumes with every other register as
/// it was before the trap.
pub proof fn lemma_resume_preserves_registers(h: HartView, cx: ContextView, i: int)
    requires
        can_trap(h),
        cx.x.len() == REGISTERS,
        forall|k: int| 0 <= k < REGISTERS && k != REG_RESULT ==> cx.x[k] == saved_context(h).x[k],
        cx.sstatus == saved_context(h).sstatus,
        cx.kernel_sp == saved_context(h).kernel_sp,
        0 <= i < REGISTERS,
        i != REG_RESULT,
    ensures
        after_return(after_entry(h), cx).x[i] == h.x[i],
        after_return(after_entry(h), cx).pc == cx.sepc,
        after_return(after_entry(h), cx).scratch == h.scratch,
        after_return(after_entry(h), cx).status == user_status(h.status),
        after_return(after_entry(h), cx).privilege == Privilege::User,
        after_return(after_entry(h), cx).trap_vector == h.trap_vector,
{
    lemma_user_status_is_stable(h.status);
}

/// A program that traps with a system call and is resumed with the result
/// `value` finds itself just past the call, with the result in the result
/// slot and every other register as it left it.
pub proof fn lemma_syscall_round_trip(h: HartView, value: i64)
    requires
        can_trap(h),
    ensures
        after_return(after_entry(h), after_syscall(saved_context(h), value)) == (HartView {
            x: h.x.update(REG_RESULT as int, word_value(value) as u64),
            pc: after_call(h.pc),
            status: user_status(h.status),
            ..h
        }),
{
    lemma_user_status_is_stable(h.status);
}

/// A return with the fresh context of a program puts the hart into the `User`
/// state at the base of the execution region, on an untouched user stack,
/// with every other register zero and the kernel stack pointer at rest at
/// the top of the kernel stack, ready for the program's first trap.
pub proof fn lemma_launch_enters_program(h: HartView, map: MemoryMap, status: u64)
    requires
        map.wf(),
        h.privilege == Privilege::Kernel,
    ensures
        ({
            let cx = fresh_context(
                map.region_base(),
                map.spec_user_stack_top() as u64,
                map.spec_kernel_stack_top() as u64,
                status,
            );
            let launched = after_return(h, cx);
            &&& launched.privilege == Privilege::User
            &&& launched.pc == map.region_base()
            &&& launched.x[REG_SP as int] == map.spec_user_stack_top()
            &&& forall|i: int| 0 <= i < REGISTERS && i != REG_SP ==> launched.x[i] == 0
            &&& launched.scratch == map.spec_kernel_stack_top()
            &&& launched.trap_vector == h.trap_vector
            &&& can_trap(launched)
        }),
{
    lemma_user_status_is_stable(status);
}

/// While the kernel stack pointer rests at the top of the kernel stack, a
/// trap saves the context on the kernel stack: the frame lies within it and
/// shares no address with the user stack or the execution region, wherever
/// the program had pointed its own stack pointer.
pub proof fn lemma_context_is_saved_on_kernel_stack(h: HartView, map: MemoryMap)
    requires
        map.wf(),
        h.x.len() == REGISTERS,
        h.privilege == Privilege::User,
        h.scratch == map.spec_kernel_stack_top(),
    ensures
        can_trap(h),
        after_entry(h).x[REG_SP as int] == map.spec_trap_frame(),
        map.in_kernel_stack(after_entry(h).x[REG_SP as int] as int, TRAP_FRAME_BYTES as int),
        disjoint(
            after_entry(h).x[REG_SP as int] as int,
            TRAP_FRAME_BYTES as int,
            map.user_stack_base() as int,
            map.user_stack_size() as int,
        ),
        disjoint(
            after_entry(h).x[REG_SP as int] as int,
            TRAP_FRAME_BYTES as int,
            map.region_base() as int,
            map.region_limit() as int,
        ),
        after_entry(h).scratch == h.x[REG_SP as int],
        saved_context(h).x[REG_SP as int] == h.x[REG_SP as int],
{
}

} // verus!
