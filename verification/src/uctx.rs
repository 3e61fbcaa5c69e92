//! The saved machine register state for one entry into user mode, and the
//! per-architecture calling convention that says which general-purpose
//! register carries the system-call number, the first argument, and the
//! return value.
//!
//! The register file is modeled uniformly as 32 slots indexed by the
//! architecture's own register numbering, large enough for every supported
//! architecture; slots past an architecture's real register count stay zero.

use vstd::prelude::*;

verus! {

/// Number of general-purpose register slots saved per user context.
pub const NUM_REGS: usize = 32;

/// The instruction-set architectures whose user-mode calling convention this
/// subsystem knows.
#[derive(Clone, Copy, PartialEq, Eq, Structural, Debug)]
pub enum Arch {
    /// System-call number in `a7` (`x17`), first argument and return value
    /// in `a0` (`x10`).
    Riscv64,
    /// System-call number in `x8`, first argument and return value in `x0`.
    Aarch64,
    /// System-call number and return value in `rax`, first argument in
    /// `rdi`.
    X86_64,
    /// System-call number in `a7` (`r11`), first argument and return value
    /// in `a0` (`r4`).
    Loongarch64,
}

/// Index of the register that carries the system-call number, as each
/// architecture's convention mandates.
pub open spec fn syscall_reg(arch: Arch) -> int {
    match arch {
        Arch::Riscv64 => 17,
        Arch::Aarch64 => 8,
        Arch::X86_64 => 0,
        Arch::Loongarch64 => 11,
    }
}

/// Index of the register that carries a system call's first argument.
pub open spec fn arg0_reg(arch: Arch) -> int {
    match arch {
        Arch::Riscv64 => 10,
        Arch::Aarch64 => 0,
        Arch::X86_64 => 7,
        Arch::Loongarch64 => 4,
    }
}

/// Index of the register into which a system call's return value is
/// written.
pub open spec fn retval_reg(arch: Arch) -> int {
    match arch {
        Arch::Riscv64 => 10,
        Arch::Aarch64 => 0,
        Arch::X86_64 => 0,
        Arch::Loongarch64 => 4,
    }
}

/// Machine register state for one entry into user mode: program counter,
/// stack pointer, and the saved general-purpose registers.
pub struct UserContext {
    pub arch: Arch,
    pub pc: u64,
    pub sp: u64,
    pub regs: Vec<u64>,
}

impl UserContext {
    pub open spec fn wf(self) -> bool {
        self.regs@.len() == NUM_REGS
    }

    /// The system-call number this context carries, per its architecture's
    /// convention.
    pub open spec fn syscall_num_spec(self) -> u64 {
        self.regs@[syscall_reg(self.arch)]
    }

    /// The first system-call argument this context carries.
    pub open spec fn arg0_spec(self) -> u64 {
        self.regs@[arg0_reg(self.arch)]
    }

    /// Initial register state for a process: program counter at `entry`,
    /// stack pointer at `stack_top`, first argument register holding
    /// `arg0`, every other register zeroed.
    pub fn new(arch: Arch, entry: u64, stack_top: u64, arg0: u64) -> (r: UserContext)
        ensures
            r.wf(),
            r.arch == arch,
            r.pc == entry,
            r.sp == stack_top,
            r.arg0_spec() == arg0,
            forall|i: int| 0 <= i < NUM_REGS && i != arg0_reg(arch) ==> r.regs@[i] == 0,
    {
        let mut regs: Vec<u64> = Vec::new();
        let mut i: usize = 0;
        while i < NUM_REGS
            invariant
                i <= NUM_REGS,
                regs@.len() == i,
                forall|j: int| 0 <= j < i ==> regs@[j] == 0,
            decreases NUM_REGS - i,
        {
            regs.push(0);
            i = i + 1;
        }
        let mut ctx = UserContext { arch, pc: entry, sp: stack_top, regs };
        let arg_idx = arg0_reg_index(arch);
        ctx.regs[arg_idx] = arg0;
        ctx
    }

    /// Read the system-call number from exactly the register mandated by
    /// this context's architecture, whatever the other registers hold.
    pub fn syscall_num(&self) -> (r: u64)
        requires
            self.wf(),
        ensures
            r == self.syscall_num_spec(),
    {
        let idx = syscall_reg_index(self.arch);
        self.regs[idx]
    }

    /// Read a system call's first argument register.
    pub fn arg0(&self) -> (r: u64)
        requires
            self.wf(),
        ensures
            r == self.arg0_spec(),
    {
        let idx = arg0_reg_index(self.arch);
        self.regs[idx]
    }

    /// Write a system call's return value into the register the convention
    /// reserves for it, leaving every other register alone.
    pub fn set_retval(&mut self, v: u64)
        requires
            old(self).wf(),
        ensures
            final(self).wf(),
            final(self).arch == old(self).arch,
            final(self).pc == old(self).pc,
            final(self).sp == old(self).sp,
            final(self).regs@ =~= old(self).regs@.update(retval_reg(old(self).arch), v),
    {
        let idx = retval_reg_index(self.arch);
        self.regs[idx] = v;
    }
}

/// Executable form of `syscall_reg`.
pub fn syscall_reg_index(arch: Arch) -> (r: usize)
    ensures
        r == syscall_reg(arch),
{
    match arch {
        Arch::Riscv64 => 17,
        Arch::Aarch64 => 8,
        Arch::X86_64 => 0,
        Arch::Loongarch64 => 11,
    }
}

/// Executable form of `arg0_reg`.
pub fn arg0_reg_index(arch: Arch) -> (r: usize)
    ensures
        r == arg0_reg(arch),
{
    match arch {
        Arch::Riscv64 => 10,
        Arch::Aarch64 => 0,
        Arch::X86_64 => 7,
        Arch::Loongarch64 => 4,
    }
}

/// Executable form of `retval_reg`.
pub fn retval_reg_index(arch: Arch) -> (r: usize)
    ensures
        r == retval_reg(arch),
{
    match arch {
        Arch::Riscv64 => 10,
        Arch::Aarch64 => 0,
        Arch::X86_64 => 0,
        Arch::Loongarch64 => 4,
    }
}

/// Decoding the system-call number depends on nothing but the one register
/// the architecture's convention mandates: two contexts for the same
/// architecture that agree on that register decode the same number, however
/// much every other register, the program counter, or the stack pointer
/// differ.
pub proof fn lemma_syscall_num_reads_only_mandated_register(c1: UserContext, c2: UserContext)
    requires
        c1.wf(),
        c2.wf(),
        c1.arch == c2.arch,
        c1.regs@[syscall_reg(c1.arch)] == c2.regs@[syscall_reg(c2.arch)],
    ensures
        c1.syscall_num_spec() == c2.syscall_num_spec(),
{
}

} // verus!
