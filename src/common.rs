//! The portable system call interface.
//!
//! A backend enters the kernel with a system call number and six argument
//! words and hands back the raw word the kernel returned. Only the
//! six-argument operation is mandatory; by default every operation of lower
//! arity pads its arguments with zeros and forwards to it.
use vstd::prelude::*;

verus! {

/// The six argument words that a call with arguments `args` hands to the
/// kernel when the missing ones are zero.
pub open spec fn padded(args: Seq<usize>) -> Seq<usize> {
    args + Seq::new((6 - args.len()) as nat, |i: int| 0usize)
}

/// The six words of a call of lower arity through the default fan-in are its
/// arguments followed by zeros: the default operations make the six-argument
/// call with the missing arguments set to zero.
pub proof fn lemma_padded(args: Seq<usize>)
    requires
        args.len() <= 6,
    ensures
        padded(args).len() == 6,
        forall|i: int| 0 <= i < args.len() ==> #[trigger] padded(args)[i] == args[i],
        forall|i: int| args.len() <= i < 6 ==> #[trigger] padded(args)[i] == 0,
{
}

/// For each arity, the words of the default operation are those of the
/// six-argument call with the missing arguments set to zero, so that the
/// default `syscallK` answers as `syscall6` does on those words.
pub proof fn lemma_fan_in(arg0: usize, arg1: usize, arg2: usize, arg3: usize, arg4: usize)
    ensures
        padded(seq![]) == seq![0usize, 0, 0, 0, 0, 0],
        padded(seq![arg0]) == seq![arg0, 0, 0, 0, 0, 0],
        padded(seq![arg0, arg1]) == seq![arg0, arg1, 0, 0, 0, 0],
        padded(seq![arg0, arg1, arg2]) == seq![arg0, arg1, arg2, 0, 0, 0],
        padded(seq![arg0, arg1, arg2, arg3]) == seq![arg0, arg1, arg2, arg3, 0, 0],
        padded(seq![arg0, arg1, arg2, arg3, arg4]) == seq![arg0, arg1, arg2, arg3, arg4, 0],
{
    assert(padded(seq![]) =~= seq![0usize, 0, 0, 0, 0, 0]);
    assert(padded(seq![arg0]) =~= seq![arg0, 0, 0, 0, 0, 0]);
    assert(padded(seq![arg0, arg1]) =~= seq![arg0, arg1, 0, 0, 0, 0]);
    assert(padded(seq![arg0, arg1, arg2]) =~= seq![arg0, arg1, arg2, 0, 0, 0]);
    assert(padded(seq![arg0, arg1, arg2, arg3]) =~= seq![arg0, arg1, arg2, arg3, 0, 0]);
    assert(padded(seq![arg0, arg1, arg2, arg3, arg4]) =~= seq![arg0, arg1, arg2, arg3, arg4, 0]);
}

/// Whether `words`, six argument words, start with `args`: the registers
/// beyond the call's arity may hold any value.
pub open spec fn loads(args: Seq<usize>, words: Seq<usize>) -> bool {
    words.len() == 6 && args.is_prefix_of(words)
}

/// Whether `b` may hand back `r` for a call of number `nr` with arguments
/// `args`, whatever its argument registers beyond `args` held.
pub open spec fn may_return<B: Syscall + ?Sized>(b: &B, nr: usize, args: Seq<usize>, r: usize) -> bool {
    exists|words: Seq<usize>| loads(args, words) && #[trigger] b.outcome(nr, words, r)
}

/// A way to enter the kernel.
///
/// Most backends execute the architecture's system call instruction; others
/// may go through the vDSO or redirect the call. Every operation is unchecked:
/// the caller attests that the backend matches the running architecture and
/// that the argument words are what the kernel expects for the call.
pub trait Syscall {
    /// Whether the kernel, entered through this backend with number `nr` and
    /// the six argument words `words`, may hand back the raw word `r`. Unless
    /// a backend states more, any word may come back.
    open spec fn outcome(&self, nr: usize, words: Seq<usize>, r: usize) -> bool {
        true
    }

    /// Enters the kernel with number `nr` and no argument, and hands back the
    /// raw word it returned. By default this is the six-argument call with the
    /// missing arguments set to zero.
    fn syscall0(&self, nr: usize) -> (r: usize)
        ensures
            exists|words: Seq<usize>|
                loads(seq![], words) && #[trigger] self.outcome(nr, words, r),
        default_ensures
            self.outcome(nr, padded(seq![]), r),
    {
        let r = self.syscall6(nr, 0, 0, 0, 0, 0, 0);
        assert(padded(seq![]) =~= seq![0usize, 0, 0, 0, 0, 0]);
        assert(loads(seq![], padded(seq![])));
        r
    }

    /// Enters the kernel with number `nr` and one argument, and hands back the
    /// raw word it returned. By default this is the six-argument call with the
    /// missing arguments set to zero.
    fn syscall1(&self, nr: usize, arg0: usize) -> (r: usize)
        ensures
            exists|words: Seq<usize>|
                loads(seq![arg0], words) && #[trigger] self.outcome(nr, words, r),
        default_ensures
            self.outcome(nr, padded(seq![arg0]), r),
    {
        let r = self.syscall6(nr, arg0, 0, 0, 0, 0, 0);
        assert(padded(seq![arg0]) =~= seq![arg0, 0, 0, 0, 0, 0]);
        assert(loads(seq![arg0], padded(seq![arg0])));
        r
    }

    /// Enters the kernel with number `nr` and two arguments, and hands back the
    /// raw word it returned. By default this is the six-argument call with the
    /// missing arguments set to zero.
    fn syscall2(&self, nr: usize, arg0: usize, arg1: usize) -> (r: usize)
        ensures
            exists|words: Seq<usize>|
                loads(seq![arg0, arg1], words) && #[trigger] self.outcome(nr, words, r),
        default_ensures
            self.outcome(nr, padded(seq![arg0, arg1]), r),
    {
        let r = self.syscall6(nr, arg0, arg1, 0, 0, 0, 0);
        assert(padded(seq![arg0, arg1]) =~= seq![arg0, arg1, 0, 0, 0, 0]);
        assert(loads(seq![arg0, arg1], padded(seq![arg0, arg1])));
        r
    }

    /// Enters the kernel with number `nr` and three arguments, and hands back the
    /// raw word it returned. By default this is the six-argument call with the
    /// missing arguments set to zero.
    fn syscall3(&self, nr: usize, arg0: usize, arg1: usize, arg2: usize) -> (r: usize)
        ensures
            exists|words: Seq<usize>|
                loads(seq![arg0, arg1, arg2], words) && #[trigger] self.outcome(nr, words, r),
        default_ensures
            self.outcome(nr, padded(seq![arg0, arg1, arg2]), r),
    {
        let r = self.syscall6(nr, arg0, arg1, arg2, 0, 0, 0);
        assert(padded(seq![arg0, arg1, arg2]) =~= seq![arg0, arg1, arg2, 0, 0, 0]);
        assert(loads(seq![arg0, arg1, arg2], padded(seq![arg0, arg1, arg2])));
        r
    }

    /// Enters the kernel with number `nr` and four arguments, and hands back the
    /// raw word it returned. By default this is the six-argument call with the
    /// missing arguments set to zero.
    fn syscall4(&self, nr: usize, arg0: usize, arg1: usize, arg2: usize, arg3: usize) -> (r:
        usize)
        ensures
            exists|words: Seq<usize>|
                loads(seq![arg0, arg1, arg2, arg3], words) && #[trigger] self.outcome(nr, words, r),
        default_ensures
            self.outcome(nr, padded(seq![arg0, arg1, arg2, arg3]), r),
    {
        let r = self.syscall6(nr, arg0, arg1, arg2, arg3, 0, 0);
        assert(padded(seq![arg0, arg1, arg2, arg3]) =~= seq![arg0, arg1, arg2, arg3, 0, 0]);
        assert(loads(seq![arg0, arg1, arg2, arg3], padded(seq![arg0, arg1, arg2, arg3])));
        r
    }

    /// Enters the kernel with number `nr` and five arguments, and hands back the
    /// raw word it returned. By default this is the six-argument call with the
    /// missing arguments set to zero.
    fn syscall5(
        &self,
        nr: usize,
        arg0: usize,
        arg1: usize,
        arg2: usize,
        arg3: usize,
        arg4: usize,
    ) -> (r: usize)
        ensures
            exists|words: Seq<usize>|
                loads(seq![arg0, arg1, arg2, arg3, arg4], words) && #[trigger] self.outcome(nr, words, r),
        default_ensures
            self.outcome(nr, padded(seq![arg0, arg1, arg2, arg3, arg4]), r),
    {
        let r = self.syscall6(nr, arg0, arg1, arg2, arg3, arg4, 0);
        assert(padded(seq![arg0, arg1, arg2, arg3, arg4]) =~= seq![
            arg0,
            arg1,
            arg2,
            arg3,
            arg4,
            0,
        ]);
        assert(loads(
            seq![arg0, arg1, arg2, arg3, arg4],
            padded(seq![arg0, arg1, arg2, arg3, arg4]),
        ));
        r
    }

    /// Enters the kernel with number `nr` and six arguments, and hands back the
    /// raw word it returned.
    fn syscall6(
        &self,
        nr: usize,
        arg0: usize,
        arg1: usize,
        arg2: usize,
        arg3: usize,
        arg4: usize,
        arg5: usize,
    ) -> (r: usize)
        ensures
            self.outcome(nr, seq![arg0, arg1, arg2, arg3, arg4, arg5], r),
    ;
}

} // verus!
