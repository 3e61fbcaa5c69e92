//! The executor loop: trap classification, the fatal-by-default fault
//! policy, and the loop over a whole run's trap events.

use userboot::aspace::MappingFlags;
use userboot::task::{handle_trap, run_to_exit, ReturnReason, TrapEvent};
use userboot::uctx::{arg0_reg_index, syscall_reg_index, Arch, UserContext};
use userboot::{FAULT_EXIT_CODE, SYS_EXIT};

fn read_access() -> MappingFlags {
    MappingFlags { read: true, write: false, execute: false, user: true }
}

fn plain_event(reason: ReturnReason) -> TrapEvent {
    TrapEvent { regs: vec![0u64; 32], pc: 0x1004, sp: 0x3fffff0000, reason }
}

fn syscall_event(arch: Arch, num: u64, arg0: u64) -> TrapEvent {
    let mut e = plain_event(ReturnReason::Syscall);
    e.regs[syscall_reg_index(arch)] = num;
    e.regs[arg0_reg_index(arch)] = arg0;
    e
}

#[test]
fn page_fault_terminates_at_any_address() {
    for vaddr in [0u64, 0x1000, 0xdead_beef, u64::MAX] {
        let mut ctx = UserContext::new(Arch::Riscv64, 0x1000, 0, 0);
        let before_regs = ctx.regs.clone();
        let r = handle_trap(&mut ctx, ReturnReason::PageFault(vaddr, read_access()));
        assert_eq!(r, Some(FAULT_EXIT_CODE));
        assert_eq!(ctx.regs, before_regs);
    }
}

#[test]
fn unknown_trap_terminates() {
    let mut ctx = UserContext::new(Arch::Aarch64, 0x1000, 0, 0);
    assert_eq!(handle_trap(&mut ctx, ReturnReason::Unknown), Some(FAULT_EXIT_CODE));
}

#[test]
fn run_stops_at_first_exit() {
    let arch = Arch::Riscv64;
    let mut ctx = UserContext::new(arch, 0x1000, 0, 0);
    let events = vec![syscall_event(arch, SYS_EXIT, 0)];
    assert_eq!(run_to_exit(&mut ctx, &events), Some(0));
}

#[test]
fn run_continues_past_unimplemented_calls() {
    let arch = Arch::Riscv64;
    let mut ctx = UserContext::new(arch, 0x1000, 0, 0);
    let events = vec![
        syscall_event(arch, 64, 1),
        syscall_event(arch, 17, 2),
        syscall_event(arch, SYS_EXIT, 3),
    ];
    assert_eq!(run_to_exit(&mut ctx, &events), Some(3));
}

#[test]
fn run_without_terminal_event_stays_runnable() {
    let arch = Arch::X86_64;
    let mut ctx = UserContext::new(arch, 0x1000, 0, 0);
    let events = vec![syscall_event(arch, 64, 1), syscall_event(arch, 13, 0)];
    assert_eq!(run_to_exit(&mut ctx, &events), None);
    assert_eq!(run_to_exit(&mut ctx, &Vec::new()), None);
}

#[test]
fn run_ends_on_page_fault_whatever_follows() {
    let arch = Arch::Loongarch64;
    let mut ctx = UserContext::new(arch, 0x1000, 0, 0);
    let events = vec![
        plain_event(ReturnReason::PageFault(0x42, read_access())),
        syscall_event(arch, SYS_EXIT, 0),
    ];
    assert_eq!(run_to_exit(&mut ctx, &events), Some(FAULT_EXIT_CODE));
}

#[test]
fn exit_code_is_read_from_the_saved_state() {
    // the run absorbs each event's saved registers before deciding
    let arch = Arch::Aarch64;
    let mut ctx = UserContext::new(arch, 0x1000, 0, 0);
    ctx.regs[8] = 99;  // stale values must not matter
    ctx.regs[0] = 99;
    let events = vec![syscall_event(arch, SYS_EXIT, (-3i32) as u64)];
    assert_eq!(run_to_exit(&mut ctx, &events), Some(-3));
}
