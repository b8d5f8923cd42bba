use std::cell::RefCell;
use std::rc::Rc;
use std::mem::{align_of, size_of};

use runtime11::arch::Arch;
use runtime11::common::Syscall as Dispatch;
use runtime11::errno::{EBADF, EINTR};
use runtime11::nr::{generic, number, Sysno};
use runtime11::syscall::{result_from_retval, Syscall};
use runtime11::this::This;

const ARCHES: [Arch; 5] = [Arch::Arm, Arch::Arm64, Arch::Riscv64, Arch::X86, Arch::X86_64];

/// A backend that implements only the six-argument call: it records each
/// transition and answers with a word computed from it.
struct Recorder {
    calls: Rc<RefCell<Vec<(usize, [usize; 6])>>>,
}

impl Recorder {
    fn new() -> Recorder {
        Recorder { calls: Rc::new(RefCell::new(Vec::new())) }
    }

    fn answer(nr: usize, w: [usize; 6]) -> usize {
        nr.wrapping_mul(7) ^ w[0] ^ w[1].rotate_left(8) ^ w[2].rotate_left(16)
            ^ w[3].rotate_left(24) ^ w[4].rotate_left(32) ^ w[5].rotate_left(40)
    }
}

impl Dispatch for Recorder {
    fn syscall6(
        &self,
        nr: usize,
        arg0: usize,
        arg1: usize,
        arg2: usize,
        arg3: usize,
        arg4: usize,
        arg5: usize,
    ) -> usize {
        let w = [arg0, arg1, arg2, arg3, arg4, arg5];
        self.calls.borrow_mut().push((nr, w));
        Recorder::answer(nr, w)
    }
}

/// A backend that keeps a descriptor table as the kernel does for `close`,
/// and has no interrupted call to resume.
struct FakeKernel {
    arch: Arch,
    open: RefCell<Vec<usize>>,
}

fn negated(e: u16) -> usize {
    0usize.wrapping_sub(e as usize)
}

impl Dispatch for FakeKernel {
    fn syscall6(
        &self,
        nr: usize,
        arg0: usize,
        _arg1: usize,
        _arg2: usize,
        _arg3: usize,
        _arg4: usize,
        _arg5: usize,
    ) -> usize {
        if nr == number(self.arch, Sysno::Close) {
            let mut open = self.open.borrow_mut();
            match open.iter().position(|fd| *fd == arg0) {
                Some(i) => {
                    open.remove(i);
                    0
                }
                None => negated(EBADF),
            }
        } else if nr == number(self.arch, Sysno::RestartSyscall) {
            negated(EINTR)
        } else {
            negated(runtime11::errno::ENOSYS)
        }
    }
}

// Every architecture has a non-zero number for `exit`.
#[test]
fn native_check() {
    for arch in ARCHES {
        assert_ne!(number(arch, Sysno::Exit), 0);
    }
}

#[test]
fn arch_availability() {
    assert_eq!(generic(Sysno::Exit), 93);

    assert_eq!(number(Arch::Arm, Sysno::Exit), 1);
    assert_eq!(number(Arch::Arm64, Sysno::Exit), 93);
    assert_eq!(number(Arch::Riscv64, Sysno::Exit), 93);
    assert_eq!(number(Arch::X86, Sysno::Exit), 1);
    assert_eq!(number(Arch::X86_64, Sysno::Exit), 60);
}

#[test]
fn arch_check() {
    assert!(size_of::<usize>() >= 4);
    assert!(align_of::<usize>() >= 4);
}

#[test]
fn syscall_trait() {
    let s6: fn(&Recorder, usize, usize, usize, usize, usize, usize, usize) -> usize =
        <Recorder as Dispatch>::syscall6;

    assert_ne!(s6 as usize, 0);
}

#[test]
fn retval_check() {
    let success_values = [
        0,
        1,
        2,
        3,
        254,
        255,
        256,
        257,
        65534,
        65535,
        65536,
        65537,
        usize::MAX / 2,
        usize::MAX / 2 + 1,
        usize::MAX - 4097,
        usize::MAX - 4096,
    ];

    for v in &success_values {
        let r = result_from_retval(*v);
        assert_eq!(r, Ok(*v));
    }

    let error_values = [
        (4096, usize::MAX - 4095),
        (4095, usize::MAX - 4094),
        (4094, usize::MAX - 4093),
        (4093, usize::MAX - 4092),
        (4, usize::MAX - 3),
        (3, usize::MAX - 2),
        (2, usize::MAX - 1),
        (1, usize::MAX),
    ];

    for (c, v) in &error_values {
        let r = result_from_retval(*v);
        assert_eq!(r, Err(*c));
    }
}

#[test]
fn syscall_creation() {
    let _: Syscall<Recorder> = Syscall::new(Recorder::new(), Arch::X86_64);
}

#[test]
fn this_creation() {
    let _: This<Recorder> = This::new(Recorder::new(), Arch::X86_64);
}

// `close(-1)` names no open descriptor and gives `EBADF`.
#[test]
fn this_syscall() {
    let kernel = FakeKernel { arch: Arch::X86_64, open: RefCell::new(vec![0, 1, 2]) };
    let this: This<FakeKernel> = This::new(kernel, Arch::X86_64);

    assert_eq!(this.syscall.close(-1i32 as u32), Err(EBADF));
}

#[test]
fn decode_band_edges() {
    assert_eq!(result_from_retval(usize::MAX - 4096), Ok(usize::MAX - 4096));
    assert_eq!(result_from_retval(usize::MAX - 4095), Err(4096));
    assert_eq!(result_from_retval(usize::MAX - 4094), Err(4095));
    assert_eq!(result_from_retval(usize::MAX), Err(1));
    assert_eq!(result_from_retval(negated(EBADF)), Err(EBADF));
    for e in 1..=4096u16 {
        assert_eq!(result_from_retval(negated(e)), Err(e));
    }
}

#[test]
fn fan_in_pads_with_zeros() {
    let rec = Recorder::new();
    let nr = 17;
    let r0 = rec.syscall0(nr);
    let r1 = rec.syscall1(nr, 1);
    let r2 = rec.syscall2(nr, 1, 2);
    let r3 = rec.syscall3(nr, 1, 2, 3);
    let r4 = rec.syscall4(nr, 1, 2, 3, 4);
    let r5 = rec.syscall5(nr, 1, 2, 3, 4, 5);
    let expected = [
        [0, 0, 0, 0, 0, 0],
        [1, 0, 0, 0, 0, 0],
        [1, 2, 0, 0, 0, 0],
        [1, 2, 3, 0, 0, 0],
        [1, 2, 3, 4, 0, 0],
        [1, 2, 3, 4, 5, 0],
    ];
    let results = [r0, r1, r2, r3, r4, r5];
    let calls = rec.calls.borrow().clone();
    assert_eq!(calls.len(), 6);
    for k in 0..6 {
        assert_eq!(calls[k], (nr, expected[k]));
        let direct = Recorder::new();
        let w = expected[k];
        assert_eq!(results[k], direct.syscall6(nr, w[0], w[1], w[2], w[3], w[4], w[5]));
        assert_eq!(direct.calls.borrow()[0], calls[k]);
    }
}

#[test]
fn close_issues_the_close_call() {
    let this = This::new(Recorder::new(), Arch::X86_64);
    let r = this.syscall.close(5);
    let expected = Recorder::answer(3, [5, 0, 0, 0, 0, 0]);
    assert_eq!(r, result_from_retval(expected));
}

#[test]
fn close_unallocated_descriptor_is_ebadf() {
    let kernel = FakeKernel { arch: Arch::X86_64, open: RefCell::new(vec![3, 4]) };
    let this = This::new(kernel, Arch::X86_64);
    assert_eq!(this.syscall.close(u32::MAX), Err(EBADF));
    assert_eq!(this.syscall.close(7), Err(EBADF));
    assert_eq!(this.syscall.close(3), Ok(0));
    assert_eq!(this.syscall.close(3), Err(EBADF));
    assert_eq!(this.syscall.close(4), Ok(0));
}

#[test]
fn close_without_open_descriptors_changes_nothing() {
    let kernel = FakeKernel { arch: Arch::Arm64, open: RefCell::new(vec![10]) };
    let ctx = Syscall::new(kernel, Arch::Arm64);
    assert_eq!(ctx.close(11), Err(EBADF));
    assert_eq!(ctx.close(11), Err(EBADF));
    assert_eq!(ctx.close(10), Ok(0));
}

#[test]
fn restart_without_pending_call_is_eintr() {
    let kernel = FakeKernel { arch: Arch::Riscv64, open: RefCell::new(Vec::new()) };
    let ctx = Syscall::new(kernel, Arch::Riscv64);
    assert_eq!(ctx.restart_syscall(), Err(EINTR));
}

#[test]
fn exit_codes_agree_in_the_low_byte() {
    let ra = Recorder::new();
    let rb = Recorder::new();
    let log_a = Rc::clone(&ra.calls);
    let log_b = Rc::clone(&rb.calls);
    Syscall::new(ra, Arch::X86_64).exit(256);
    Syscall::new(rb, Arch::X86_64).exit(0);
    let ca = log_a.borrow();
    let cb = log_b.borrow();
    assert_eq!(ca.len(), 1);
    assert_eq!(cb.len(), 1);
    assert_eq!(ca[0].0, 60);
    assert_eq!(cb[0].0, 60);
    assert_eq!(ca[0].1[0] & 0xff, cb[0].1[0] & 0xff);
    assert_eq!(ca[0].1[1..], cb[0].1[1..]);
}
