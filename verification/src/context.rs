//! The trap context: the registers of a program as saved across a
//! privilege switch.

use vstd::prelude::*;

verus! {

/// Number of general registers.
pub const REGISTERS: usize = 32;

/// Index of the stack pointer in the register file.
pub const REG_SP: usize = 2;

/// Index of the register that carries the first argument of a system call
/// in, and its result out.
pub const REG_RESULT: usize = 10;

/// Index of the register that carries the second argument.
pub const REG_ARG1: usize = 11;

/// Index of the register that carries the third argument.
pub const REG_ARG2: usize = 12;

/// Index of the register that carries the number of the system call.
pub const REG_SYSCALL: usize = 17;

/// The bit of the status word that records the privilege to return to: clear
/// for reduced privilege, set for full privilege.
pub const STATUS_PREVIOUS_PRIVILEGE: u64 = 0x100;

/// Length in bytes of the instruction that issues a system call.
pub const CALL_BYTES: u64 = 4;

/// The status word `status` with the privilege to return to set to reduced.
pub open spec fn user_status(status: u64) -> u64 {
    status & !STATUS_PREVIOUS_PRIVILEGE
}

/// True when a return under `status` lands in reduced privilege.
pub open spec fn returns_to_user(status: u64) -> bool {
    status & STATUS_PREVIOUS_PRIVILEGE == 0
}

/// The address of the instruction after the call at `pc`. Addresses wrap at
/// the end of the address space, as the program counter does.
pub open spec fn after_call(pc: u64) -> u64 {
    if pc + CALL_BYTES <= u64::MAX {
        (pc + CALL_BYTES) as u64
    } else {
        (pc + CALL_BYTES - 0x1_0000_0000_0000_0000) as u64
    }
}

/// The signed value that a register word stands for (two's complement).
pub open spec fn signed_value(word: u64) -> int {
    if word <= i64::MAX {
        word as int
    } else {
        word - 0x1_0000_0000_0000_0000
    }
}

/// The register word that stands for a signed value (two's complement).
pub open spec fn word_value(value: i64) -> int {
    if value >= 0 {
        value as int
    } else {
        value + 0x1_0000_0000_0000_0000
    }
}

/// Reads a register word as a signed value.
pub fn to_signed(word: u64) -> (value: i64)
    ensures
        value == signed_value(word),
{
    if word <= 0x7fff_ffff_ffff_ffff {
        word as i64
    } else {
        let below: u64 = u64::MAX - word;
        -(below as i64) - 1
    }
}

/// Writes a signed value as a register word.
pub fn to_word(value: i64) -> (word: u64)
    ensures
        word == word_value(value),
{
    if value >= 0 {
        value as u64
    } else {
        let below: u64 = (-(value + 1)) as u64;
        u64::MAX - below
    }
}

/// Reading back a word that was written from a signed value gives that value,
/// and the other way round.
pub proof fn lemma_signed_round_trip(value: i64, word: u64)
    ensures
        signed_value(word_value(value) as u64) == value,
        word_value(signed_value(word) as i64) == word,
{
}

/// Clears the privilege bit of a status word.
pub fn with_user_privilege(status: u64) -> (r: u64)
    ensures
        r == user_status(status),
        returns_to_user(r),
{
    let r: u64 = status & !STATUS_PREVIOUS_PRIVILEGE;
    assert(returns_to_user(r)) by {
        assert((status & !0x100u64) & 0x100u64 == 0) by (bit_vector);
    }
    r
}

/// A status word that already returns to reduced privilege is left as it is
/// when the privilege bit is cleared again.
pub proof fn lemma_user_status_is_stable(status: u64)
    ensures
        returns_to_user(user_status(status)),
        user_status(user_status(status)) == user_status(status),
        returns_to_user(status) ==> user_status(status) == status,
{
    assert((status & !0x100u64) & 0x100u64 == 0) by (bit_vector);
    assert((status & !0x100u64) & !0x100u64 == status & !0x100u64) by (bit_vector);
    assert(status & 0x100u64 == 0 ==> status & !0x100u64 == status) by (bit_vector);
}

/// The mathematical content of a [`TrapContext`].
pub struct ContextView {
    /// The 32 general registers.
    pub x: Seq<u64>,
    /// The status snapshot.
    pub sstatus: u64,
    /// The resume address.
    pub sepc: u64,
    /// The kernel stack pointer for the next trap of this program.
    pub kernel_sp: u64,
}

/// The saved registers of a program. It is built anew before each launch,
/// overwritten at each trap and consumed at each return to the program.
#[derive(Clone, Copy, Debug, PartialEq, Eq)]
pub struct TrapContext {
    /// The 32 general registers.
    pub x: [u64; 32],
    /// The status snapshot.
    pub sstatus: u64,
    /// The resume address.
    pub sepc: u64,
    /// The kernel stack pointer for the next trap of this program.
    pub kernel_sp: u64,
}

impl View for TrapContext {
    type V = ContextView;

    open spec fn view(&self) -> ContextView {
        ContextView {
            x: self.x@,
            sstatus: self.sstatus,
            sepc: self.sepc,
            kernel_sp: self.kernel_sp,
        }
    }
}

/// The context of a program that has not run yet: every register zero but
/// the stack pointer, which is `sp`; resume address `entry`; a status that
/// returns to reduced privilege.
pub open spec fn fresh_context(entry: u64, sp: u64, kernel_sp: u64, status: u64) -> ContextView {
    ContextView {
        x: Seq::new(32, |i: int| if i == REG_SP { sp } else { 0u64 }),
        sstatus: user_status(status),
        sepc: entry,
        kernel_sp,
    }
}

/// The context `cx` after a system call that returned `result`: the resume
/// address is past the call and the result slot holds the result. Nothing
/// else differs.
pub open spec fn after_syscall(cx: ContextView, result: i64) -> ContextView {
    ContextView {
        x: cx.x.update(REG_RESULT as int, word_value(result) as u64),
        sepc: after_call(cx.sepc),
        ..cx
    }
}

impl TrapContext {
    /// Sets the saved stack pointer.
    pub fn set_sp(&mut self, sp: u64)
        ensures
            final(self)@ == (ContextView { x: old(self)@.x.update(REG_SP as int, sp), ..old(self)@ }),
    {
        self.x[REG_SP] = sp;
    }

    /// Builds the context with which a program starts: see
    /// [`fresh_context`]. `status` is the hart's current status word.
    pub fn app_init_context(entry: u64, sp: u64, kernel_sp: u64, status: u64) -> (cx: TrapContext)
        ensures
            cx@ == fresh_context(entry, sp, kernel_sp, status),
            returns_to_user(cx.sstatus),
    {
        let mut cx = TrapContext {
            x: [0u64; 32],
            sstatus: with_user_privilege(status),
            sepc: entry,
            kernel_sp,
        };
        cx.set_sp(sp);
        assert(cx@.x =~= fresh_context(entry, sp, kernel_sp, status).x);
        cx
    }

    /// The number of the system call that the program asked for.
    pub fn syscall_id(&self) -> (id: u64)
        ensures
            id == self@.x[REG_SYSCALL as int],
    {
        self.x[REG_SYSCALL]
    }

    /// The three argument slots of a system call.
    pub fn syscall_args(&self) -> (args: [u64; 3])
        ensures
            args@ == seq![
                self@.x[REG_RESULT as int],
                self@.x[REG_ARG1 as int],
                self@.x[REG_ARG2 as int],
            ],
    {
        let args: [u64; 3] = [self.x[REG_RESULT], self.x[REG_ARG1], self.x[REG_ARG2]];
        assert(args@ =~= seq![
            self@.x[REG_RESULT as int],
            self@.x[REG_ARG1 as int],
            self@.x[REG_ARG2 as int],
        ]);
        args
    }

    /// Moves the resume address past the instruction that issued the call.
    pub fn skip_call(&mut self)
        ensures
            final(self)@ == (ContextView { sepc: after_call(old(self)@.sepc), ..old(self)@ }),
    {
        if self.sepc <= u64::MAX - CALL_BYTES {
            self.sepc = self.sepc + CALL_BYTES;
        } else {
            self.sepc = self.sepc - (u64::MAX - CALL_BYTES) - 1;
        }
    }

    /// Writes the result of a system call into the result slot.
    pub fn set_result(&mut self, result: i64)
        ensures
            final(self)@ == (ContextView {
                x: old(self)@.x.update(REG_RESULT as int, word_value(result) as u64),
                ..old(self)@
            }),
    {
        self.x[REG_RESULT] = to_word(result);
    }
}

} // verus!
