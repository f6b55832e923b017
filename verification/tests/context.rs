use batch_os::context::{
    to_signed, to_word, with_user_privilege, TrapContext, CALL_BYTES, REGISTERS, REG_ARG1,
    REG_ARG2, REG_RESULT, REG_SP, REG_SYSCALL, STATUS_PREVIOUS_PRIVILEGE,
};

#[test]
fn register_slots_follow_the_calling_convention() {
    assert_eq!(REGISTERS, 32);
    assert_eq!(REG_SP, 2);
    assert_eq!(REG_RESULT, 10);
    assert_eq!(REG_ARG1, 11);
    assert_eq!(REG_ARG2, 12);
    assert_eq!(REG_SYSCALL, 17);
    assert_eq!(CALL_BYTES, 4);
    assert_eq!(STATUS_PREVIOUS_PRIVILEGE, 1 << 8);
}

#[test]
fn to_signed_reads_twos_complement() {
    assert_eq!(to_signed(0), 0);
    assert_eq!(to_signed(42), 42);
    assert_eq!(to_signed(0x7fff_ffff_ffff_ffff), i64::MAX);
    assert_eq!(to_signed(0x8000_0000_0000_0000), i64::MIN);
    assert_eq!(to_signed(u64::MAX), -1);
    assert_eq!(to_signed(u64::MAX - 1), -2);
}

#[test]
fn to_word_writes_twos_complement() {
    assert_eq!(to_word(0), 0);
    assert_eq!(to_word(2), 2);
    assert_eq!(to_word(i64::MAX), 0x7fff_ffff_ffff_ffff);
    assert_eq!(to_word(-1), u64::MAX);
    assert_eq!(to_word(-2), u64::MAX - 1);
    assert_eq!(to_word(i64::MIN), 0x8000_0000_0000_0000);
}

#[test]
fn signed_and_word_round_trip() {
    for value in [0i64, 1, -1, 93, -93, i64::MAX, i64::MIN] {
        assert_eq!(to_signed(to_word(value)), value);
    }
    for word in [0u64, 1, u64::MAX, 0x8000_0000_0000_0000, 0x7fff_ffff_ffff_ffff] {
        assert_eq!(to_word(to_signed(word)), word);
    }
}

#[test]
fn with_user_privilege_clears_one_bit_only() {
    assert_eq!(with_user_privilege(0x122), 0x022);
    assert_eq!(with_user_privilege(0x100), 0);
    assert_eq!(with_user_privilege(0x022), 0x022);
    assert_eq!(with_user_privilege(u64::MAX), u64::MAX - 0x100);
}

#[test]
fn app_init_context_is_fresh() {
    let cx = TrapContext::app_init_context(0x8040_0000, 0x8020_7000, 0x8020_9000, 0x8000_0000_0000_0120);
    assert_eq!(cx.sepc, 0x8040_0000);
    assert_eq!(cx.kernel_sp, 0x8020_9000);
    assert_eq!(cx.sstatus, 0x8000_0000_0000_0020);
    for i in 0..32 {
        if i == 2 {
            assert_eq!(cx.x[i], 0x8020_7000);
        } else {
            assert_eq!(cx.x[i], 0);
        }
    }
}

#[test]
fn set_sp_touches_the_stack_pointer_only() {
    let mut cx = TrapContext { x: [7; 32], sstatus: 1, sepc: 2, kernel_sp: 3 };
    cx.set_sp(0x1234);
    let mut expected = [7u64; 32];
    expected[2] = 0x1234;
    assert_eq!(cx, TrapContext { x: expected, sstatus: 1, sepc: 2, kernel_sp: 3 });
}

#[test]
fn syscall_slots_are_read_from_the_registers() {
    let mut cx = TrapContext { x: [0; 32], sstatus: 0, sepc: 0, kernel_sp: 0 };
    cx.x[17] = 64;
    cx.x[10] = 1;
    cx.x[11] = 0x8040_0100;
    cx.x[12] = 2;
    cx.x[13] = 99;
    assert_eq!(cx.syscall_id(), 64);
    assert_eq!(cx.syscall_args(), [1, 0x8040_0100, 2]);
}

#[test]
fn skip_call_moves_the_resume_address_by_one_instruction() {
    let mut cx = TrapContext { x: [5; 32], sstatus: 9, sepc: 0x8040_0010, kernel_sp: 3 };
    cx.skip_call();
    assert_eq!(cx, TrapContext { x: [5; 32], sstatus: 9, sepc: 0x8040_0014, kernel_sp: 3 });
}

#[test]
fn skip_call_wraps_at_the_end_of_the_address_space() {
    let mut cx = TrapContext { x: [0; 32], sstatus: 0, sepc: u64::MAX - 4, kernel_sp: 0 };
    cx.skip_call();
    assert_eq!(cx.sepc, u64::MAX);
    cx.sepc = u64::MAX - 3;
    cx.skip_call();
    assert_eq!(cx.sepc, 0);
    cx.sepc = u64::MAX;
    cx.skip_call();
    assert_eq!(cx.sepc, 3);
}

#[test]
fn set_result_touches_the_result_slot_only() {
    let mut cx = TrapContext { x: [4; 32], sstatus: 1, sepc: 2, kernel_sp: 3 };
    cx.set_result(-1);
    let mut expected = [4u64; 32];
    expected[10] = u64::MAX;
    assert_eq!(cx, TrapContext { x: expected, sstatus: 1, sepc: 2, kernel_sp: 3 });
    cx.set_result(2);
    assert_eq!(cx.x[10], 2);
}
