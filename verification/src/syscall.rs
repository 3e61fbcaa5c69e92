//! The system-call dispatcher: decode the trapped call's number and map it to
//! a kernel action. Exactly one call is implemented — EXIT terminates the
//! process with its first argument as the exit status. Every other number is
//! reported back to the user program as a "not implemented" sentinel in the
//! return-value register, and the process keeps running: an unknown call
//! never terminates it.

use vstd::prelude::*;

use crate::uctx::{retval_reg, UserContext};
use crate::{NOT_IMPLEMENTED, SYS_EXIT};

verus! {

/// Handle one trapped system call. Returns the exit status the process asked
/// for, or nothing when it stays runnable; in the latter case the context's
/// return-value register now holds the "not implemented" sentinel and no
/// other register changed.
pub fn handle_syscall(uctx: &mut UserContext) -> (r: Option<i32>)
    requires
        old(uctx).wf(),
    ensures
        final(uctx).wf(),
        final(uctx).arch == old(uctx).arch,
        final(uctx).pc == old(uctx).pc,
        final(uctx).sp == old(uctx).sp,
        old(uctx).syscall_num_spec() == SYS_EXIT ==> r == Some(
            old(uctx).arg0_spec() as i32,
        ) && *final(uctx) == *old(uctx),
        old(uctx).syscall_num_spec() != SYS_EXIT ==> r is None && final(uctx).regs@ =~= old(
            uctx,
        ).regs@.update(retval_reg(old(uctx).arch), NOT_IMPLEMENTED),
{
    let num = uctx.syscall_num();
    if num == SYS_EXIT {
        let exit_code = uctx.arg0() as i32;
        Some(exit_code)
    } else {
        uctx.set_retval(NOT_IMPLEMENTED);
        None
    }
}

} // verus!
