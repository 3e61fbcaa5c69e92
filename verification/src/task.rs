//! The executor loop and the process spawner. A unit of execution repeatedly
//! enters user mode; each return is classified as a trap outcome, and the
//! loop decides: an EXIT system call terminates the unit with the requested
//! status, any other system call writes a sentinel return value and
//! re-enters user mode, and a page fault or an unrecognized trap terminates
//! the unit with the fault exit status.
//!
//! Entering user mode is the hardware privilege-transfer primitive; it saves
//! the full user register state back into the context and reports why
//! control returned. The loop here is verified against exactly that
//! interface: a sequence of trap events, each carrying the saved register
//! state and the classified cause.

use vstd::prelude::*;

use crate::aspace::{AddrSpace, MappingError, MappingFlags};
use crate::loader::{code_flags, load_user_app, loaded_page, LoadError};
use crate::mem::{zero_page, MemoryManager};
use crate::syscall::handle_syscall;
use crate::uctx::{arg0_reg, retval_reg, syscall_reg, Arch, UserContext, NUM_REGS};
use crate::{
    APP_ENTRY, FAULT_EXIT_CODE, NOT_IMPLEMENTED, PAGE_SIZE_4K, SYS_EXIT, USER_ASPACE_BASE,
    USER_ASPACE_SIZE, USER_STACK_SIZE,
};

verus! {

/// Why control returned from user mode: a requested system call, a page
/// fault at a faulting address with the attempted access, or any other
/// cause.
#[derive(Clone, Copy, PartialEq, Eq, Structural, Debug)]
pub enum ReturnReason {
    Syscall,
    PageFault(u64, MappingFlags),
    Unknown,
}

/// One return from user mode, as the privilege-transfer primitive reports
/// it: the saved user register state and the classified cause.
pub struct TrapEvent {
    pub regs: Vec<u64>,
    pub pc: u64,
    pub sp: u64,
    pub reason: ReturnReason,
}

impl TrapEvent {
    pub open spec fn wf(self) -> bool {
        self.regs@.len() == NUM_REGS
    }
}

/// The exit status the executor loop reports after consuming `events` in
/// order: the first EXIT call, page fault, or unrecognized trap decides;
/// other system calls keep the process runnable. Nothing when the events
/// run out with the process still runnable.
pub open spec fn loop_exit_status(arch: Arch, events: Seq<TrapEvent>) -> Option<i32>
    decreases events.len(),
{
    if events.len() == 0 {
        Option::None
    } else {
        let e = events[0];
        match e.reason {
            ReturnReason::Syscall => {
                if e.regs@[syscall_reg(arch)] == SYS_EXIT {
                    Option::Some(e.regs@[arg0_reg(arch)] as i32)
                } else {
                    loop_exit_status(arch, events.drop_first())
                }
            },
            ReturnReason::PageFault(_, _) => Option::Some(FAULT_EXIT_CODE),
            ReturnReason::Unknown => Option::Some(FAULT_EXIT_CODE),
        }
    }
}

/// Decide one trap: the exit status to terminate with, or nothing when the
/// process stays runnable. On an unimplemented system call the context's
/// return-value register now holds the sentinel; on a terminal trap the
/// context is untouched.
pub fn handle_trap(uctx: &mut UserContext, reason: ReturnReason) -> (r: Option<i32>)
    requires
        old(uctx).wf(),
    ensures
        final(uctx).wf(),
        final(uctx).arch == old(uctx).arch,
        final(uctx).pc == old(uctx).pc,
        final(uctx).sp == old(uctx).sp,
        reason is Syscall && old(uctx).syscall_num_spec() == SYS_EXIT ==> r == Some(
            old(uctx).arg0_spec() as i32,
        ) && *final(uctx) == *old(uctx),
        reason is Syscall && old(uctx).syscall_num_spec() != SYS_EXIT ==> r is None && final(uctx).regs@ =~= old(uctx).regs@.update(retval_reg(old(uctx).arch), NOT_IMPLEMENTED),
        reason matches ReturnReason::PageFault(_, _) ==> r == Some(FAULT_EXIT_CODE) && *final(uctx) == *old(uctx),
        reason is Unknown ==> r == Some(FAULT_EXIT_CODE) && *final(uctx) == *old(uctx),
{
    match reason {
        ReturnReason::Syscall => handle_syscall(uctx),
        ReturnReason::PageFault(_vaddr, _flags) => Some(FAULT_EXIT_CODE),
        ReturnReason::Unknown => Some(FAULT_EXIT_CODE),
    }
}

/// A fresh copy of a saved register file.
fn clone_regs(src: &Vec<u64>) -> (r: Vec<u64>)
    ensures
        r@ =~= src@,
{
    let mut out: Vec<u64> = Vec::new();
    let mut i: usize = 0;
    while i < src.len()
        invariant
            i <= src@.len(),
            out@ =~= src@.subrange(0, i as int),
        decreases src@.len() - i,
    {
        out.push(src[i]);
        i = i + 1;
        proof {
            assert(out@ =~= src@.subrange(0, i as int));
        }
    }
    proof {
        assert(out@ =~= src@);
    }
    out
}

/// The executor loop, one trap at a time: absorb each saved user state into
/// the context, decide the trap, and stop at the first terminal decision.
/// Returns exactly the status `loop_exit_status` assigns to the events, or
/// nothing when they run out with the process still runnable.
#[verifier::loop_isolation(false)]
pub fn run_to_exit(uctx: &mut UserContext, events: &Vec<TrapEvent>) -> (r: Option<i32>)
    requires
        old(uctx).wf(),
        forall|i: int| 0 <= i < events@.len() ==> (#[trigger] events@[i]).wf(),
    ensures
        final(uctx).wf(),
        final(uctx).arch == old(uctx).arch,
        r == loop_exit_status(old(uctx).arch, events@),
{
    let ghost arch = old(uctx).arch;
    proof {
        assert(events@.skip(0) =~= events@);
    }
    let mut idx: usize = 0;
    while idx < events.len()
        invariant
            idx <= events@.len(),
            uctx.wf(),
            uctx.arch == arch,
            loop_exit_status(arch, events@) == loop_exit_status(
                arch,
                events@.skip(idx as int),
            ),
        decreases events@.len() - idx,
    {
        let e = &events[idx];
        uctx.pc = e.pc;
        uctx.sp = e.sp;
        uctx.regs = clone_regs(&e.regs);
        let ghost pre = events@.skip(idx as int);
        proof {
            assert(pre[0] == events@[idx as int]);
            assert(pre.drop_first() =~= events@.skip(idx as int + 1));
        }
        let decision = handle_trap(uctx, e.reason);
        match decision {
            Some(code) => {
                return Some(code);
            },
            None => {},
        }
        idx = idx + 1;
    }
    proof {
        assert(events@.skip(events@.len() as int) =~= Seq::<TrapEvent>::empty());
    }
    None
}

/// One spawned process: its address space, its user-mode execution context,
/// and the physical address of its page-table root, which the scheduler
/// installs on every context switch into the process's unit of execution.
pub struct Process {
    pub uspace: AddrSpace,
    pub uctx: UserContext,
    pub page_table_root: u64,
}

impl Process {
    /// Wait for the process to terminate: run its executor loop over the
    /// traps the hardware reports and hand back the recorded exit status,
    /// or nothing while the process is still runnable.
    pub fn join(self, events: &Vec<TrapEvent>) -> (r: Option<i32>)
        requires
            self.uctx.wf(),
            forall|i: int| 0 <= i < events@.len() ==> (#[trigger] events@[i]).wf(),
        ensures
            r == loop_exit_status(self.uctx.arch, events@),
    {
        let mut ctx = self.uctx;
        run_to_exit(&mut ctx, events)
    }
}

/// Register a schedulable unit of execution for a prepared address space:
/// build the initial user context (program counter at the entry address,
/// stack pointer at the given stack top, first argument zero, all other
/// registers zeroed) and couple the unit to the space's page-table root so
/// that scheduling it also switches the page table.
pub fn spawn_user_task(uspace: AddrSpace, ustack_top: u64, arch: Arch) -> (r: Process)
    requires
        uspace.wf(),
    ensures
        r.uspace == uspace,
        r.uctx.wf(),
        r.uctx.arch == arch,
        r.uctx.pc == APP_ENTRY,
        r.uctx.sp == ustack_top,
        r.uctx.arg0_spec() == 0,
        forall|i: int| 0 <= i < NUM_REGS && i != arg0_reg(arch) ==> r.uctx.regs@[i] == 0,
        r.page_table_root == uspace.pt_root_spec() * (PAGE_SIZE_4K as int),
{
    let page_table_root = uspace.page_table_root();
    let uctx = UserContext::new(arch, APP_ENTRY, ustack_top, 0);
    Process { uspace, uctx, page_table_root }
}

/// Why a spawn failed. The first failing step aborts the whole sequence: no
/// partial process is ever runnable.
#[derive(Clone, Copy, PartialEq, Eq, Structural, Debug)]
pub enum SpawnError {
    /// The address space's page-table structures could not be allocated.
    Allocation,
    /// The payload could not be loaded.
    Load(LoadError),
    /// The stack could not be mapped.
    Mapping(MappingError),
}

/// Frames a spawn consumes: the page-table root, the code page, and the
/// stack pages.
pub open spec fn frames_needed_to_spawn() -> int {
    2 + USER_STACK_SIZE as int / (PAGE_SIZE_4K as int)
}

/// The permissions of the stack region: readable, writable, user-accessible,
/// not executable.
pub open spec fn stack_flags() -> MappingFlags {
    MappingFlags { read: true, write: true, execute: false, user: true }
}

/// First address of the stack region: the stack occupies the top of the
/// process's virtual range.
pub open spec fn stack_base() -> int {
    USER_ASPACE_BASE as int + USER_ASPACE_SIZE as int - USER_STACK_SIZE as int
}

/// Spawn one process from a staged image: create the address space over the
/// fixed user range, copy the kernel's mappings into it, load the image at
/// the entry address, map a zeroed stack at the top of the range, and
/// register the unit of execution with its initial context. The first
/// failing step aborts the spawn; success is owed exactly when enough
/// physical frames remain.
pub fn spawn_process(arch: Arch, image: &Vec<u8>, kernel: &AddrSpace, mm: &mut MemoryManager) -> (r:
    Result<Process, SpawnError>)
    requires
        image@.len() <= PAGE_SIZE_4K,
        old(mm).wf(),
        kernel.wf(),
        forall|i: int|
            0 <= i < kernel.regions_spec().len() ==> !(#[trigger] kernel.regions_spec()[i]).flags.user,
    ensures
        final(mm).wf(),
        final(mm).capacity() == old(mm).capacity(),
        r is Ok <==> old(mm).frames().len() + frames_needed_to_spawn() <= old(mm).capacity(),
        r == Err::<Process, SpawnError>(SpawnError::Allocation) <==> old(mm).frames().len()
            >= old(mm).capacity(),
        r == Err::<Process, SpawnError>(SpawnError::Load(LoadError::OutOfMemory)) <==> old(mm).frames().len() + 1 == old(mm).capacity(),
        r == Err::<Process, SpawnError>(SpawnError::Mapping(MappingError::NoMemory)) <==> old(mm).frames().len() + 2 <= old(mm).capacity() && old(mm).frames().len()
            + frames_needed_to_spawn() > old(mm).capacity(),
        r matches Ok(p) ==> {
            &&& p.uspace.wf()
            &&& p.uspace.base_spec() == USER_ASPACE_BASE
            &&& p.uspace.size_spec() == USER_ASPACE_SIZE
            &&& p.uspace.backed_by(*final(mm))
            &&& p.uspace.frames_at_or_above(old(mm).frames().len() as int)
            &&& p.uspace.regions_spec().len() == 2
            &&& p.uspace.regions_spec()[0].start == APP_ENTRY
            &&& p.uspace.regions_spec()[0].size == PAGE_SIZE_4K
            &&& p.uspace.regions_spec()[0].flags == code_flags()
            &&& p.uspace.regions_spec()[0].frames@.len() == 1
            &&& final(mm).frames()[p.uspace.regions_spec()[0].frames@[0] as int] =~= loaded_page(
                image@,
            )
            &&& p.uspace.regions_spec()[1].start == stack_base()
            &&& p.uspace.regions_spec()[1].size == USER_STACK_SIZE
            &&& p.uspace.regions_spec()[1].flags == stack_flags()
            &&& forall|k: int|
                0 <= k < p.uspace.regions_spec()[1].frames@.len() ==> final(mm).frames()[(
                #[trigger] p.uspace.regions_spec()[1].frames@[k]) as int] =~= zero_page()
            &&& p.uspace.mapped(APP_ENTRY as int)
            &&& p.uspace.kernel_regions_spec().len() == kernel.regions_spec().len()
            &&& forall|i: int|
                0 <= i < kernel.regions_spec().len() ==> !(
                #[trigger] p.uspace.kernel_regions_spec()[i]).flags.user
            &&& p.uctx.wf()
            &&& p.uctx.arch == arch
            &&& p.uctx.pc == APP_ENTRY
            &&& p.uctx.sp == USER_ASPACE_BASE + USER_ASPACE_SIZE
            &&& p.uctx.arg0_spec() == 0
            &&& p.page_table_root == p.uspace.pt_root_spec() * (PAGE_SIZE_4K as int)
        },
{
    let mut uspace = match AddrSpace::new_empty(mm, USER_ASPACE_BASE, USER_ASPACE_SIZE) {
        Ok(s) => s,
        Err(_) => {
            return Err(SpawnError::Allocation);
        },
    };
    uspace.copy_mappings_from(kernel);
    match load_user_app(image, &mut uspace, mm) {
        Ok(_) => {},
        Err(e) => {
            return Err(SpawnError::Load(e));
        },
    }
    let ustack_top = uspace.end();
    let ustack_vaddr = ustack_top - (USER_STACK_SIZE as u64);
    let sflags = MappingFlags { read: true, write: true, execute: false, user: true };
    match uspace.map(mm, ustack_vaddr, USER_STACK_SIZE as u64, sflags) {
        Ok(_) => {},
        Err(e) => {
            return Err(SpawnError::Mapping(e));
        },
    }
    proof {
        assert forall|i: int| 0 <= i < kernel.regions_spec().len() implies !(
        #[trigger] uspace.kernel_regions_spec()[i]).flags.user by {
            assert(!uspace.kernel_regions_spec()[0 + i].flags.user);
        }
    }
    Ok(spawn_user_task(uspace, ustack_top, arch))
}

/// Invoking EXIT with any representable argument, negative ones included,
/// terminates the run at once with exactly that argument as the recorded
/// exit status.
pub proof fn lemma_exit_code_observed(arch: Arch, events: Seq<TrapEvent>)
    requires
        events.len() > 0,
        events[0].reason is Syscall,
        events[0].regs@[syscall_reg(arch)] == SYS_EXIT,
    ensures
        loop_exit_status(arch, events) == Some(events[0].regs@[arg0_reg(arch)] as i32),
{
}

/// Any system call other than EXIT leaves the process runnable: the run's
/// outcome is whatever the remaining traps decide, so the process may keep
/// issuing calls.
pub proof fn lemma_unknown_syscall_continues(arch: Arch, events: Seq<TrapEvent>)
    requires
        events.len() > 0,
        events[0].reason is Syscall,
        events[0].regs@[syscall_reg(arch)] != SYS_EXIT,
    ensures
        loop_exit_status(arch, events) == loop_exit_status(arch, events.drop_first()),
{
}

/// A page fault at any address, with any access flags, terminates the run
/// with the designated fault exit status. No other process's address space
/// appears anywhere in this statement: whatever is or was mapped elsewhere
/// cannot change the outcome.
pub proof fn lemma_page_fault_always_fatal(
    arch: Arch,
    events: Seq<TrapEvent>,
    vaddr: u64,
    access: MappingFlags,
)
    requires
        events.len() > 0,
        events[0].reason == ReturnReason::PageFault(vaddr, access),
    ensures
        loop_exit_status(arch, events) == Some(FAULT_EXIT_CODE),
{
}

/// An unrecognized trap terminates the run with the fault exit status, just
/// as a page fault does.
pub proof fn lemma_unknown_trap_fatal(arch: Arch, events: Seq<TrapEvent>)
    requires
        events.len() > 0,
        events[0].reason is Unknown,
    ensures
        loop_exit_status(arch, events) == Some(FAULT_EXIT_CODE),
{
}

} // verus!
