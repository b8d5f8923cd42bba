//! System call numbers.
//!
//! Each architecture numbers the system calls in its own way; 64-bit ARM and
//! RISC-V use the generic table. Only the calls this library and its callers
//! issue are listed.
use vstd::prelude::*;

use crate::arch::Arch;

verus! {

/// A system call, named independently of its architecture-specific number.
#[derive(Clone, Copy, Debug, PartialEq, Eq, Structural)]
pub enum Sysno {
    Read,
    Write,
    Close,
    Pipe2,
    Getpid,
    Exit,
    RestartSyscall,
}

/// The number of `call` in the generic table.
pub open spec fn generic_spec(call: Sysno) -> usize {
    match call {
        Sysno::Read => 63,
        Sysno::Write => 64,
        Sysno::Close => 57,
        Sysno::Pipe2 => 59,
        Sysno::Getpid => 172,
        Sysno::Exit => 93,
        Sysno::RestartSyscall => 128,
    }
}

/// The number of `call` on `arch`.
pub open spec fn number_spec(arch: Arch, call: Sysno) -> usize {
    match arch {
        Arch::Arm64 | Arch::Riscv64 => generic_spec(call),
        Arch::X86_64 => match call {
            Sysno::Read => 0,
            Sysno::Write => 1,
            Sysno::Close => 3,
            Sysno::Pipe2 => 293,
            Sysno::Getpid => 39,
            Sysno::Exit => 60,
            Sysno::RestartSyscall => 219,
        },
        Arch::Arm => match call {
            Sysno::Read => 3,
            Sysno::Write => 4,
            Sysno::Close => 6,
            Sysno::Pipe2 => 359,
            Sysno::Getpid => 20,
            Sysno::Exit => 1,
            Sysno::RestartSyscall => 0,
        },
        Arch::X86 => match call {
            Sysno::Read => 3,
            Sysno::Write => 4,
            Sysno::Close => 6,
            Sysno::Pipe2 => 331,
            Sysno::Getpid => 20,
            Sysno::Exit => 1,
            Sysno::RestartSyscall => 0,
        },
    }
}

/// The number of `call` in the generic table.
pub fn generic(call: Sysno) -> (r: usize)
    ensures
        r == generic_spec(call),
{
    match call {
        Sysno::Read => 63,
        Sysno::Write => 64,
        Sysno::Close => 57,
        Sysno::Pipe2 => 59,
        Sysno::Getpid => 172,
        Sysno::Exit => 93,
        Sysno::RestartSyscall => 128,
    }
}

/// The number of `call` on `arch`.
pub fn number(arch: Arch, call: Sysno) -> (r: usize)
    ensures
        r == number_spec(arch, call),
{
    match arch {
        Arch::Arm64 | Arch::Riscv64 => generic(call),
        Arch::X86_64 => match call {
            Sysno::Read => 0,
            Sysno::Write => 1,
            Sysno::Close => 3,
            Sysno::Pipe2 => 293,
            Sysno::Getpid => 39,
            Sysno::Exit => 60,
            Sysno::RestartSyscall => 219,
        },
        Arch::Arm => match call {
            Sysno::Read => 3,
            Sysno::Write => 4,
            Sysno::Close => 6,
            Sysno::Pipe2 => 359,
            Sysno::Getpid => 20,
            Sysno::Exit => 1,
            Sysno::RestartSyscall => 0,
        },
        Arch::X86 => match call {
            Sysno::Read => 3,
            Sysno::Write => 4,
            Sysno::Close => 6,
            Sysno::Pipe2 => 331,
            Sysno::Getpid => 20,
            Sysno::Exit => 1,
            Sysno::RestartSyscall => 0,
        },
    }
}

} // verus!
