//! The current execution context.
//!
//! Every thread carries implicit kernel state: its descriptor table, its
//! credentials, its signal mask. Any operation that uses or changes that state
//! is a method of the thread's one `This`, which makes the dependency explicit.
use vstd::prelude::*;

use std::marker::PhantomData;
use std::rc::Rc;

use crate::arch::Arch;
use crate::syscall::Syscall;

verus! {

/// The execution context of the current thread.
///
/// The value is neither `Send` nor `Sync`: it belongs to the thread that made
/// it. Each thread has at most one; whoever starts the thread makes it.
pub struct This<B> {
    pub syscall: Syscall<B>,
    _marker_nonsend: PhantomData<Rc<()>>,
}

impl<B: crate::common::Syscall> This<B> {
    /// The thread's kernel context.
    pub closed spec fn context(&self) -> Syscall<B> {
        self.syscall
    }

    /// The context of the current thread, entering the kernel through `ffi`
    /// with the system call numbers of `arch`.
    ///
    /// The caller ensures that no other context of this thread exists.
    pub fn new(ffi: B, arch: Arch) -> (r: This<B>)
        ensures
            r.context().backend() == ffi,
            r.context().arch() == arch,
    {
        This { syscall: Syscall::new(ffi, arch), _marker_nonsend: PhantomData }
    }
}

} // verus!
