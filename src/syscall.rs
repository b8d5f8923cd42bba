//! System call invocation.
//!
//! Decodes the raw word that the kernel hands back into a typed result, and
//! offers the documented operations of a thread's kernel context on top of a
//! backend.
use vstd::prelude::*;

use crate::arch::Arch;
use crate::nr::{number, Sysno};

verus! {

/// A kernel error number: a code between 1 and 4096.
pub type Errno = u16;

/// The typed result of a raw return word: the top 4096 words of the range are
/// the negated error codes 1 to 4096; any other word is a success, unchanged.
pub open spec fn decode(r: usize) -> Result<usize, Errno> {
    if r > usize::MAX - 4096 {
        Err((usize::MAX - r + 1) as u16)
    } else {
        Ok(r)
    }
}

/// Turns the raw word a system call returned into `Ok` of the word, or into
/// `Err` of the error code where the word is one of the top 4096 values.
pub fn result_from_retval(r: usize) -> (res: Result<usize, Errno>)
    ensures
        res == decode(r),
{
    if r > usize::MAX - 4096 {
        Err((usize::MAX - r + 1) as u16)
    } else {
        Ok(r)
    }
}

/// Every word below the top 4096 values of the range decodes to a success
/// that carries the word unchanged.
pub proof fn lemma_decode_success(r: usize)
    requires
        r <= usize::MAX - 4096,
    ensures
        decode(r) == Ok::<usize, Errno>(r),
{
}

/// Every error code between 1 and 4096, negated in two's complement as the
/// kernel returns it, decodes to that code.
pub proof fn lemma_decode_error(e: Errno)
    requires
        1 <= e <= 4096,
    ensures
        decode((usize::MAX - e + 1) as usize) == Err::<usize, Errno>(e),
{
}

/// The kernel context of one thread, on top of the backend `B` for the
/// architecture `arch`.
pub struct Syscall<B> {
    ffi: B,
    arch: Arch,
}

impl<B: crate::common::Syscall> Syscall<B> {
    /// The backend through which calls enter the kernel.
    pub closed spec fn backend(&self) -> B {
        self.ffi
    }

    /// The architecture whose system call numbers are used.
    pub closed spec fn arch(&self) -> Arch {
        self.arch
    }

    /// A context that enters the kernel through `ffi`, with the system call
    /// numbers of `arch`.
    pub fn new(ffi: B, arch: Arch) -> (r: Syscall<B>)
        ensures
            r.backend() == ffi,
            r.arch() == arch,
    {
        Syscall { ffi, arch }
    }

    /// Closes the file descriptor `fd`.
    ///
    /// The descriptor is unlinked from the descriptor table whatever the
    /// result. `Err(EBADF)` means that `fd` was not open and nothing happened;
    /// any other error comes from tearing down the open file and only informs:
    /// the descriptor is closed all the same, and the call must not be
    /// repeated.
    pub fn close(&self, fd: u32) -> (r: Result<usize, Errno>)
        ensures
            exists|raw: usize|
                #[trigger] crate::common::may_return(
                    &self.backend(),
                    crate::nr::number_spec(self.arch(), Sysno::Close),
                    seq![fd as usize],
                    raw,
                ) && r == decode(raw),
    {
        let raw = self.ffi.syscall1(number(self.arch, Sysno::Close), fd as usize);
        assert(self.backend() == self.ffi && self.arch() == self.arch);
        assert(crate::common::may_return(
            &self.backend(),
            crate::nr::number_spec(self.arch(), Sysno::Close),
            seq![fd as usize],
            raw,
        ));
        result_from_retval(raw)
    }

    /// Ends the calling thread with the exit code `code`, of which the kernel
    /// keeps the low 8 bits.
    ///
    /// The kernel does not hand control back; should a backend return
    /// nonetheless, so does this call.
    pub fn exit(&self, code: u32)
        ensures
            exists|raw: usize|
                #[trigger] crate::common::may_return(
                    &self.backend(),
                    crate::nr::number_spec(self.arch(), Sysno::Exit),
                    seq![code as usize],
                    raw,
                ),
    {
        let raw = self.ffi.syscall1(number(self.arch, Sysno::Exit), code as usize);
        assert(self.backend() == self.ffi && self.arch() == self.arch);
        assert(crate::common::may_return(
            &self.backend(),
            crate::nr::number_spec(self.arch(), Sysno::Exit),
            seq![code as usize],
            raw,
        ));
    }

    /// Resumes a system call that was interrupted, with its time parameters
    /// adjusted; `Err(EINTR)` when no call is pending. Ordinary code has no use
    /// for it.
    pub fn restart_syscall(&self) -> (r: Result<usize, Errno>)
        ensures
            exists|raw: usize|
                #[trigger] crate::common::may_return(
                    &self.backend(),
                    crate::nr::number_spec(self.arch(), Sysno::RestartSyscall),
                    seq![],
                    raw,
                ) && r == decode(raw),
    {
        let raw = self.ffi.syscall0(number(self.arch, Sysno::RestartSyscall));
        assert(self.backend() == self.ffi && self.arch() == self.arch);
        assert(crate::common::may_return(
            &self.backend(),
            crate::nr::number_spec(self.arch(), Sysno::RestartSyscall),
            seq![],
            raw,
        ));
        result_from_retval(raw)
    }
}

} // verus!
