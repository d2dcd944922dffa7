//! Decoding and servicing the syscalls of a trapped user context.

use crate::context::UserContext;
use crate::space::{bytes_at, range_accessible, Access, AddressSpace};
use vstd::prelude::*;

verus! {

/// `write(fd, buf, len)`: copy `len` bytes of text to the console.
pub const SYS_WRITE: u64 = 64;

/// `exit(code)`: halt the machine, reporting success.
pub const SYS_EXIT: u64 = 93;

/// Returned in `a0` when the buffer of a `write` is not accessible (-14).
pub const EFAULT_RET: u64 = 0xffff_ffff_ffff_fff2;

/// Returned in `a0` when the buffer of a `write` is not valid text (-22).
pub const EINVAL_RET: u64 = 0xffff_ffff_ffff_ffea;

/// Returned in `a0` for an unknown syscall number (-38).
pub const ENOSYS_RET: u64 = 0xffff_ffff_ffff_ffda;

/// A syscall that failed without harming anything but its caller.
#[derive(Debug, Clone, Copy, PartialEq, Eq, Structural)]
pub enum SyscallError {
    CrossSpaceAccessFault,
    DecodeFailure,
    UnknownSyscall,
}

/// What the kernel must do after a syscall was serviced.
#[derive(Debug)]
pub enum SyscallOutcome {
    /// Emit these bytes (valid UTF-8 text) on the console, then resume.
    Console(Vec<u8>),
    /// Halt the machine, reporting success; carries the exit status.
    Exit(u64),
    /// The error code is in `a0`; resume the program.
    Failed(SyscallError),
}

/// Whether `b` is valid UTF-8.
pub uninterp spec fn utf8_valid(b: Seq<u8>) -> bool;

/// Relies on `std::str::from_utf8`, which succeeds exactly when the bytes
/// are valid UTF-8.
#[verifier::external_body]
fn is_utf8(b: &[u8]) -> (r: bool)
    ensures
        r == utf8_valid(b@),
{
    std::str::from_utf8(b).is_ok()
}

/// Finishes a `write` whose buffer was read as `bytes`: on valid text the
/// bytes go to the console and `a0` holds their count; otherwise `a0`
/// holds `EINVAL_RET` and nothing is emitted.
pub fn complete_write(user_context: &mut UserContext, bytes: Vec<u8>, is_text: bool) -> (r: SyscallOutcome)
    ensures
        is_text ==> (r matches SyscallOutcome::Console(v) && v@ == bytes@),
        is_text ==> *final(user_context) == old(user_context).with_a0(bytes@.len() as u64),
        !is_text ==> r == SyscallOutcome::Failed(SyscallError::DecodeFailure),
        !is_text ==> *final(user_context) == old(user_context).with_a0(EINVAL_RET),
{
    if is_text {
        user_context.set_a0(bytes.len() as u64);
        SyscallOutcome::Console(bytes)
    } else {
        user_context.set_a0(EINVAL_RET);
        SyscallOutcome::Failed(SyscallError::DecodeFailure)
    }
}

/// Services the syscall that `user_context` requests against `vm_space`.
///
/// The number is in `a7`. `write` reads `a2` bytes at `a1` through a
/// checked cross-space read; `exit` carries `a0`; any other number is
/// answered with `ENOSYS_RET`. No failure touches anything but `a0`.
pub fn handle_syscall(user_context: &mut UserContext, vm_space: &AddressSpace) -> (r: SyscallOutcome)
    requires
        vm_space.wf(),
    ensures
        ({
            let c = *old(user_context);
            let ok = range_accessible(vm_space@, c.a1 as int, c.a2 as int, Access::Read);
            let b = bytes_at(vm_space@, c.a1 as int, c.a2 as nat);
            &&& c.a7 == SYS_WRITE && !ok ==> r == SyscallOutcome::Failed(SyscallError::CrossSpaceAccessFault)
                && *final(user_context) == c.with_a0(EFAULT_RET)
            &&& c.a7 == SYS_WRITE && ok && utf8_valid(b) ==> (r matches SyscallOutcome::Console(v) && v@ == b)
                && *final(user_context) == c.with_a0(c.a2)
            &&& c.a7 == SYS_WRITE && ok && !utf8_valid(b) ==> r == SyscallOutcome::Failed(SyscallError::DecodeFailure)
                && *final(user_context) == c.with_a0(EINVAL_RET)
            &&& c.a7 == SYS_EXIT ==> r == SyscallOutcome::Exit(c.a0) && *final(user_context) == c
            &&& c.a7 != SYS_WRITE && c.a7 != SYS_EXIT ==> r == SyscallOutcome::Failed(SyscallError::UnknownSyscall)
                && *final(user_context) == c.with_a0(ENOSYS_RET)
        }),
{
    let syscall_num = user_context.a7();
    if syscall_num == SYS_WRITE {
        let buf_addr = user_context.a1();
        let buf_len = user_context.a2();
        match vm_space.read(buf_addr, buf_len) {
            Ok(buf) => {
                let is_text = is_utf8(buf.as_slice());
                complete_write(user_context, buf, is_text)
            },
            Err(_) => {
                user_context.set_a0(EFAULT_RET);
                SyscallOutcome::Failed(SyscallError::CrossSpaceAccessFault)
            },
        }
    } else if syscall_num == SYS_EXIT {
        SyscallOutcome::Exit(user_context.a0())
    } else {
        user_context.set_a0(ENOSYS_RET);
        SyscallOutcome::Failed(SyscallError::UnknownSyscall)
    }
}

} // verus!
