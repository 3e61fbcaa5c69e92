//! The system-call dispatcher: per-architecture number decoding, the EXIT
//! call, and the not-implemented sentinel.

use userboot::syscall::handle_syscall;
use userboot::uctx::{arg0_reg_index, retval_reg_index, syscall_reg_index, Arch, UserContext};
use userboot::{NOT_IMPLEMENTED, SYS_EXIT};

fn all_arches() -> Vec<Arch> {
    vec![Arch::Riscv64, Arch::Aarch64, Arch::X86_64, Arch::Loongarch64]
}

fn ctx_with_distinct_regs(arch: Arch) -> UserContext {
    let mut ctx = UserContext::new(arch, 0x1000, 0x4000_0000_0000, 0);
    for i in 0..32 {
        ctx.regs[i] = 1000 + i as u64;
    }
    ctx
}

#[test]
fn syscall_number_comes_from_the_mandated_register() {
    // riscv64: a7 = x17; aarch64: x8; x86_64: rax; loongarch64: a7 = r11.
    assert_eq!(syscall_reg_index(Arch::Riscv64), 17);
    assert_eq!(syscall_reg_index(Arch::Aarch64), 8);
    assert_eq!(syscall_reg_index(Arch::X86_64), 0);
    assert_eq!(syscall_reg_index(Arch::Loongarch64), 11);
    for arch in all_arches() {
        let ctx = ctx_with_distinct_regs(arch);
        assert_eq!(ctx.syscall_num(), 1000 + syscall_reg_index(arch) as u64);
    }
}

#[test]
fn syscall_number_ignores_every_other_register() {
    for arch in all_arches() {
        let mut a = ctx_with_distinct_regs(arch);
        let mut b = UserContext::new(arch, 0xffff, 0, 0);
        for i in 0..32 {
            b.regs[i] = 77;
        }
        let num = 93u64;
        a.regs[syscall_reg_index(arch)] = num;
        b.regs[syscall_reg_index(arch)] = num;
        assert_eq!(a.syscall_num(), num);
        assert_eq!(b.syscall_num(), num);
    }
}

#[test]
fn exit_call_reports_exit_code() {
    for arch in all_arches() {
        let mut ctx = UserContext::new(arch, 0x1000, 0, 0);
        ctx.regs[syscall_reg_index(arch)] = SYS_EXIT;
        ctx.regs[arg0_reg_index(arch)] = 7;
        assert_eq!(handle_syscall(&mut ctx), Some(7));
    }
}

#[test]
fn exit_call_keeps_negative_codes() {
    for arch in all_arches() {
        let mut ctx = UserContext::new(arch, 0x1000, 0, 0);
        ctx.regs[syscall_reg_index(arch)] = SYS_EXIT;
        ctx.regs[arg0_reg_index(arch)] = (-7i32) as u64;
        assert_eq!(handle_syscall(&mut ctx), Some(-7));
    }
}

#[test]
fn unknown_call_writes_sentinel_and_continues() {
    for arch in all_arches() {
        let mut ctx = ctx_with_distinct_regs(arch);
        ctx.regs[syscall_reg_index(arch)] = 64;  // not implemented here
        let before = ctx.regs.clone();
        assert_eq!(handle_syscall(&mut ctx), None);
        assert_eq!(ctx.regs[retval_reg_index(arch)], NOT_IMPLEMENTED);
        for i in 0..32 {
            if i != retval_reg_index(arch) {
                assert_eq!(ctx.regs[i], before[i]);
            }
        }
    }
}

#[test]
fn process_may_issue_further_calls_after_unknown_one() {
    let arch = Arch::Riscv64;
    let mut ctx = UserContext::new(arch, 0x1000, 0, 0);
    ctx.regs[17] = 222;
    assert_eq!(handle_syscall(&mut ctx), None);
    // the user program issues EXIT next
    ctx.regs[17] = SYS_EXIT;
    ctx.regs[10] = 5;
    assert_eq!(handle_syscall(&mut ctx), Some(5));
}

#[test]
fn not_implemented_sentinel_is_all_bits_set() {
    assert_eq!(NOT_IMPLEMENTED, u64::MAX);
}

#[test]
fn new_context_zeroes_registers() {
    let ctx = UserContext::new(Arch::Riscv64, 0x1000, 0x2000, 9);
    assert_eq!(ctx.pc, 0x1000);
    assert_eq!(ctx.sp, 0x2000);
    assert_eq!(ctx.regs.len(), 32);
    for i in 0..32 {
        if i == arg0_reg_index(Arch::Riscv64) {
            assert_eq!(ctx.regs[i], 9);
        } else {
            assert_eq!(ctx.regs[i], 0);
        }
    }
}
