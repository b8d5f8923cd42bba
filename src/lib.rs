//! Runtime support for Linux programs that start without a C runtime or a
//! dynamic loader.
//!
//! The library describes, for each supported architecture, the entry stub that
//! the kernel jumps to when a process starts, generates the assembly text of
//! that stub, and offers a portable way to issue raw system calls and to decode
//! what the kernel hands back.
pub mod arch;
pub mod common;
pub mod elf;
pub mod elf32;
pub mod elf64;
pub mod elfn;
pub mod entrypoint;
pub mod errno;
pub mod nr;
pub mod syscall;
pub mod this;
pub mod util;
