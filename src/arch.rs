//! Architecture descriptors of the entry stub.
//!
//! Every supported architecture states what its entry stub needs: the
//! character that prefixes assembler type names, the alignment of a function
//! entry point, the instructions that call the loader and jump to the program,
//! and any wrapper that the architecture requires around them.
use vstd::prelude::*;

verus! {

/// The architectures this library supports.
#[derive(Clone, Copy, Debug, PartialEq, Eq, Structural)]
pub enum Arch {
    /// 32-bit ARM.
    Arm,
    /// 64-bit ARM.
    Arm64,
    /// 64-bit RISC-V.
    Riscv64,
    /// 32-bit Intel (i686).
    X86,
    /// 64-bit Intel (amd64).
    X86_64,
}

/// Whether `n` is a power of two.
pub open spec fn is_power_of_two(n: nat) -> bool
    decreases n,
{
    if n == 1 {
        true
    } else if n < 2 || n % 2 != 0 {
        false
    } else {
        is_power_of_two(n / 2)
    }
}

impl Arch {
    /// The minimum byte alignment of a function entry point.
    pub open spec fn entry_align_spec(self) -> u32 {
        match self {
            Arch::Arm => 0,
            _ => 16,
        }
    }

    /// The character that prefixes assembler type names such as `progbits`.
    pub open spec fn prefix_char(self) -> char {
        match self {
            Arch::Arm | Arch::Arm64 | Arch::Riscv64 => '%',
            Arch::X86 | Arch::X86_64 => '@',
        }
    }

    /// Minimum byte alignment of a function entry point: 0 (no alignment) on
    /// 32-bit ARM, 16 everywhere else.
    pub fn entry_align(&self) -> (r: u32)
        ensures
            r == self.entry_align_spec(),
    {
        match self {
            Arch::Arm => 0,
            _ => 16,
        }
    }

    /// The assembler pseudo-identifier `id` with the architecture's prefix
    /// (`%progbits` on ARM and RISC-V, `@progbits` on x86).
    pub fn asm_prefix(&self, id: &str) -> (r: String)
        ensures
            r@ == seq![self.prefix_char()] + id@,
    {
        let p = match self {
            Arch::Arm | Arch::Arm64 | Arch::Riscv64 => "%",
            Arch::X86 | Arch::X86_64 => "@",
        };
        proof {
            reveal_strlit("%");
            reveal_strlit("@");
        }
        let r = String::from_str(p).concat(id);
        assert(p@ =~= seq![self.prefix_char()]);
        r
    }
}

impl Arch {
    /// The register that holds the return address on entry to a function.
    pub open spec fn return_address_register(self) -> Seq<char> {
        match self {
            Arch::Arm => "r14"@,
            Arch::Arm64 => "x30"@,
            Arch::Riscv64 => "ra"@,
            Arch::X86 => "eip"@,
            Arch::X86_64 => "rip"@,
        }
    }

    /// The register in which a function returns its result.
    pub open spec fn result_register(self) -> Seq<char> {
        match self {
            Arch::Arm => "r0"@,
            Arch::Arm64 => "x0"@,
            Arch::Riscv64 => "a0"@,
            Arch::X86 => "eax"@,
            Arch::X86_64 => "rax"@,
        }
    }

    /// The mnemonic of a call that records a return address.
    pub open spec fn call_mnemonic(self) -> Seq<char> {
        match self {
            Arch::Arm | Arch::Arm64 => "bl"@,
            _ => "call"@,
        }
    }

    /// The mnemonic of an indirect jump that records no return address.
    pub open spec fn jump_mnemonic(self) -> Seq<char> {
        match self {
            Arch::Arm => "bx"@,
            Arch::Arm64 => "br"@,
            Arch::Riscv64 => "jr"@,
            _ => "jmp"@,
        }
    }

    /// Whether `line` is a call instruction.
    pub open spec fn is_call(self, line: Seq<char>) -> bool {
        (self.call_mnemonic() + " "@).is_prefix_of(line)
    }

    /// Whether `line` is a jump instruction.
    pub open spec fn is_jump(self, line: Seq<char>) -> bool {
        (self.jump_mnemonic() + " "@).is_prefix_of(line)
    }

    /// The directive that marks the return address as undefined, so that an
    /// unwinder sees the frame as the outermost one.
    pub open spec fn unwind_line(self) -> Seq<char> {
        ".cfi_undefined "@ + self.return_address_register() + ";\n"@
    }

    /// The call of the loader.
    pub open spec fn call_line(self, loader: Seq<char>) -> Seq<char> {
        self.call_mnemonic() + " "@ + loader + ";\n"@
    }

    /// The tail jump to the address that the loader returned.
    pub open spec fn tail_line(self) -> Seq<char> {
        self.jump_mnemonic() + " "@ + self.result_register() + ";\n"@
    }

    /// The lines of the entry code: mark the frame as the outermost one, pass
    /// the stack pointer to the loader in the first argument register (on x86,
    /// on a 16-byte aligned stack), call the loader, and jump to the address
    /// it returned.
    pub open spec fn entry_lines(self, loader: Seq<char>) -> Seq<Seq<char>> {
        match self {
            Arch::Arm => seq![
                self.unwind_line(),
                "mov r0, sp;\n"@,
                self.call_line(loader),
                self.tail_line(),
            ],
            Arch::Arm64 => seq![
                self.unwind_line(),
                "mov x0, sp;\n"@,
                self.call_line(loader),
                self.tail_line(),
            ],
            Arch::Riscv64 => seq![
                self.unwind_line(),
                "mv a0, sp;\n"@,
                self.call_line(loader),
                self.tail_line(),
            ],
            Arch::X86 => seq![
                self.unwind_line(),
                "mov eax, esp;\n"@,
                "sub esp, 12;\n"@,
                "push eax;\n"@,
                self.call_line(loader),
                "add esp, 16;\n"@,
                self.tail_line(),
            ],
            Arch::X86_64 => seq![
                self.unwind_line(),
                "mov rdi, rsp;\n"@,
                self.call_line(loader),
                self.tail_line(),
            ],
        }
    }

    /// The text of the entry code.
    pub open spec fn entry_code_spec(self, loader: Seq<char>) -> Seq<char> {
        self.entry_lines(loader).flatten()
    }

    /// The text that opens the entry point, after its label.
    pub open spec fn custom_begin_spec(self) -> Seq<char> {
        match self {
            Arch::Arm => ".fnstart;\n"@,
            Arch::Arm64 => "bti c;\n"@,
            _ => ""@,
        }
    }

    /// The text that closes the entry point, before its size record.
    pub open spec fn custom_end_spec(self) -> Seq<char> {
        match self {
            Arch::Arm => ".fnend;\n"@,
            _ => ""@,
        }
    }

    fn return_address_register_str(&self) -> (r: &'static str)
        ensures
            r@ == self.return_address_register(),
    {
        match self {
            Arch::Arm => "r14",
            Arch::Arm64 => "x30",
            Arch::Riscv64 => "ra",
            Arch::X86 => "eip",
            Arch::X86_64 => "rip",
        }
    }

    fn result_register_str(&self) -> (r: &'static str)
        ensures
            r@ == self.result_register(),
    {
        match self {
            Arch::Arm => "r0",
            Arch::Arm64 => "x0",
            Arch::Riscv64 => "a0",
            Arch::X86 => "eax",
            Arch::X86_64 => "rax",
        }
    }

    fn call_mnemonic_str(&self) -> (r: &'static str)
        ensures
            r@ == self.call_mnemonic(),
    {
        match self {
            Arch::Arm | Arch::Arm64 => "bl",
            _ => "call",
        }
    }

    fn jump_mnemonic_str(&self) -> (r: &'static str)
        ensures
            r@ == self.jump_mnemonic(),
    {
        match self {
            Arch::Arm => "bx",
            Arch::Arm64 => "br",
            Arch::Riscv64 => "jr",
            _ => "jmp",
        }
    }

    /// The entry code: it marks the frame as the outermost one, calls `loader`
    /// with the stack pointer as its only argument, and jumps (without
    /// recording a return address) to the address the loader returned.
    pub fn entry_code(&self, loader: &str) -> (r: String)
        ensures
            r@ == self.entry_code_spec(loader@),
    {
        let mut out = String::new();
        let ghost mut lines: Seq<Seq<char>> = seq![];
        let unwind = concat3(".cfi_undefined ", self.return_address_register_str(), ";\n");
        emit(&mut out, unwind.as_str(), Ghost(lines));
        proof {
            lines = lines.push(unwind@);
        }
        let setup = match self {
            Arch::Arm => "mov r0, sp;\n",
            Arch::Arm64 => "mov x0, sp;\n",
            Arch::Riscv64 => "mv a0, sp;\n",
            Arch::X86 => "mov eax, esp;\n",
            Arch::X86_64 => "mov rdi, rsp;\n",
        };
        emit(&mut out, setup, Ghost(lines));
        proof {
            lines = lines.push(setup@);
        }
        if let Arch::X86 = self {
            emit(&mut out, "sub esp, 12;\n", Ghost(lines));
            proof {
                lines = lines.push("sub esp, 12;\n"@);
            }
            emit(&mut out, "push eax;\n", Ghost(lines));
            proof {
                lines = lines.push("push eax;\n"@);
            }
        }
        let call = concat3(self.call_mnemonic_str(), " ", loader).concat(";\n");
        emit(&mut out, call.as_str(), Ghost(lines));
        proof {
            lines = lines.push(call@);
        }
        if let Arch::X86 = self {
            emit(&mut out, "add esp, 16;\n", Ghost(lines));
            proof {
                lines = lines.push("add esp, 16;\n"@);
            }
        }
        let tail = concat3(self.jump_mnemonic_str(), " ", self.result_register_str()).concat(";\n");
        emit(&mut out, tail.as_str(), Ghost(lines));
        proof {
            lines = lines.push(tail@);
            assert(lines =~= self.entry_lines(loader@));
        }
        out
    }

    /// The architecture's text after the entry point's label (ARM: the
    /// unwinder's function-start marker; 64-bit ARM: a landing pad for
    /// branch-target identification; others: nothing).
    pub fn entry_custom_begin(&self, _symbol: &str) -> (r: String)
        ensures
            r@ == self.custom_begin_spec(),
    {
        let s = match self {
            Arch::Arm => ".fnstart;\n",
            Arch::Arm64 => "bti c;\n",
            _ => "",
        };
        String::from_str(s)
    }

    /// The architecture's text after the entry code (ARM: the unwinder's
    /// function-end marker; others: nothing).
    pub fn entry_custom_end(&self, _symbol: &str) -> (r: String)
        ensures
            r@ == self.custom_end_spec(),
    {
        let s = match self {
            Arch::Arm => ".fnend;\n",
            _ => "",
        };
        String::from_str(s)
    }
}

proof fn lemma_not_prefix(p: Seq<char>, line: Seq<char>, m: int)
    requires
        0 <= m < p.len(),
        m < line.len(),
        line[m] != p[m],
    ensures
        !p.is_prefix_of(line),
{
    if p.is_prefix_of(line) {
        assert(line.subrange(0, p.len() as int)[m] == line[m]);
    }
}

/// The shape of every architecture's entry point: its alignment is zero or a
/// power of two; its entry code begins by marking the frame as the outermost
/// one, and holds exactly one call, which goes to the loader, followed later
/// by exactly one jump, which goes through the result register.
pub proof fn lemma_entry_code_shape(arch: Arch, loader: Seq<char>)
    ensures
        arch.entry_align_spec() == 0 || is_power_of_two(arch.entry_align_spec() as nat),
        arch.entry_lines(loader)[0] == arch.unwind_line(),
        exists|i: int, j: int|
            0 <= i < j < arch.entry_lines(loader).len() && arch.entry_lines(loader)[i]
                == arch.call_line(loader) && arch.entry_lines(loader)[j] == arch.tail_line() && (
            forall|k: int|
                0 <= k < arch.entry_lines(loader).len() && #[trigger] arch.is_call(
                    arch.entry_lines(loader)[k],
                ) ==> k == i) && (forall|k: int|
                0 <= k < arch.entry_lines(loader).len() && #[trigger] arch.is_jump(
                    arch.entry_lines(loader)[k],
                ) ==> k == j),
{
    reveal_with_fuel(is_power_of_two, 5);
    reveal_strlit(".cfi_undefined ");
    reveal_strlit(" ");
    reveal_strlit("bl");
    reveal_strlit("call");
    reveal_strlit("bx");
    reveal_strlit("br");
    reveal_strlit("jr");
    reveal_strlit("jmp");
    reveal_strlit("mov r0, sp;\n");
    reveal_strlit("mov x0, sp;\n");
    reveal_strlit("mv a0, sp;\n");
    reveal_strlit("mov eax, esp;\n");
    reveal_strlit("sub esp, 12;\n");
    reveal_strlit("push eax;\n");
    reveal_strlit("add esp, 16;\n");
    reveal_strlit("mov rdi, rsp;\n");
    let lines = arch.entry_lines(loader);
    let cp = arch.call_mnemonic() + " "@;
    let jp = arch.jump_mnemonic() + " "@;
    let n = lines.len() as int;
    // The jump is the last line; the call comes just before it, or on x86
    // just before the line that restores the stack pointer.
    let i = if arch == Arch::X86 {
        n - 3
    } else {
        n - 2
    };
    let j = n - 1;
    assert(lines[i] == arch.call_line(loader));
    assert(lines[j] == arch.tail_line());
    // The lines before the call begin with a character that neither
    // mnemonic has.
    assert forall|k: int| 0 <= k < n && k != i && k != j implies !arch.is_call(lines[k])
        && !arch.is_jump(lines[k]) by {
        assert(lines[k].len() > 0 && lines[k][0] != cp[0] && lines[k][0] != jp[0]);
        lemma_not_prefix(cp, lines[k], 0);
        lemma_not_prefix(jp, lines[k], 0);
    }
    // The call and the jump differ in their first or second character.
    let m: int = if arch == Arch::Arm || arch == Arch::Arm64 {
        1
    } else {
        0
    };
    assert(lines[i][m] == cp[m] && lines[j][m] == jp[m] && cp[m] != jp[m]);
    lemma_not_prefix(jp, lines[i], m);
    lemma_not_prefix(cp, lines[j], m);
    assert(0 <= i < j < n);
}

/// `a`, `b` and `c` one after the other.
fn concat3(a: &str, b: &str, c: &str) -> (r: String)
    ensures
        r@ == a@ + b@ + c@,
{
    String::from_str(a).concat(b).concat(c)
}

fn emit(out: &mut String, line: &str, Ghost(lines): Ghost<Seq<Seq<char>>>)
    requires
        old(out)@ == lines.flatten(),
    ensures
        final(out)@ == lines.push(line@).flatten(),
{
    proof {
        lines.lemma_flatten_push(line@);
    }
    out.append(line);
}

} // verus!
