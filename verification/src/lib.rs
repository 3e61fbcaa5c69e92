//! User-mode execution subsystem of a small monolithic kernel, as a verified
//! model: it builds an isolated address space for one process, loads a flat
//! binary image into it, maps a stack, constructs the initial user-mode
//! register context, and decides, trap by trap, whether the process keeps
//! running or terminates with an exit status.
//!
//! The hardware collaborators (the privilege-transfer primitive, the page-table
//! walker, the scheduler, the file store) stay outside this crate: the model
//! holds as plain values exactly what the kernel logic reads and writes of
//! them, so every decision the kernel makes is verified here.

use vstd::prelude::*;

pub mod aspace;
pub mod loader;
pub mod mem;
pub mod syscall;
pub mod task;
pub mod uctx;

verus! {

/// Size of one page of physical or virtual memory, the mapping granularity.
pub const PAGE_SIZE_4K: usize = 0x1000;

/// Fixed load address of the user image; by convention also its entry point.
pub const APP_ENTRY: u64 = 0x1000;

/// Size of the user stack mapped at the top of the user address range.
pub const USER_STACK_SIZE: u64 = 0x10000;

/// Size of the kernel-mode stack given to the unit of execution that runs
/// one user process.
pub const KERNEL_STACK_SIZE: u64 = 0x40000;

/// Base of the virtual range reserved for a user process.
pub const USER_ASPACE_BASE: u64 = 0;

/// Size of the virtual range reserved for a user process, disjoint from
/// kernel space.
pub const USER_ASPACE_SIZE: u64 = 0x40_0000_0000;

/// Call number of the one implemented system call: terminate the process.
pub const SYS_EXIT: u64 = 93;

/// Sentinel written into the return-value register for a call number that is
/// not implemented: all bits set.
pub const NOT_IMPLEMENTED: u64 = u64::MAX;

/// Exit status of a process terminated by a page fault or an unrecognized
/// trap.
pub const FAULT_EXIT_CODE: i32 = -1;

/// Root of the project tree, relative to the directory that holds the crate
/// manifest.
pub fn project_root() -> (r: String)
    ensures
        r@ == "."@,
{
    ".".to_owned()
}

} // verus!
