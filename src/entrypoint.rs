//! The entry-stub generator.
//!
//! Composes an architecture's descriptor with the names of a section, a symbol
//! and a loader into the assembly text of an ELF entry point. The text is not
//! checked: names that are not valid assembler identifiers give text that the
//! assembler rejects.
use vstd::prelude::*;

use crate::arch::Arch;

verus! {

/// The text of the decimal digit `d`.
pub open spec fn digit(d: nat) -> Seq<char> {
    if d == 0 {
        "0"@
    } else if d == 1 {
        "1"@
    } else if d == 2 {
        "2"@
    } else if d == 3 {
        "3"@
    } else if d == 4 {
        "4"@
    } else if d == 5 {
        "5"@
    } else if d == 6 {
        "6"@
    } else if d == 7 {
        "7"@
    } else if d == 8 {
        "8"@
    } else {
        "9"@
    }
}

/// The decimal text of `n`, without leading zeros.
pub open spec fn decimal(n: nat) -> Seq<char>
    decreases n,
{
    if n < 10 {
        digit(n)
    } else {
        decimal(n / 10) + digit(n % 10)
    }
}

/// The assembly text of an entry point named `symbol` in section `section`
/// that hands the stack pointer to `loader`: open an allocated and executable
/// section, align, declare a global function symbol and its label, then the
/// architecture's opening text, the frame start, the entry code, the frame end
/// and the architecture's closing text, record the symbol's size as the
/// current position minus the label, and restore the previous section.
pub open spec fn assembly_text(
    arch: Arch,
    section: Seq<char>,
    symbol: Seq<char>,
    loader: Seq<char>,
) -> Seq<char> {
    ".pushsection "@ + section + ", \"ax\", "@ + seq![arch.prefix_char()] + "progbits"@ + ";\n"@
        + ".balign "@ + decimal(arch.entry_align_spec() as nat) + ";\n"@ + ".globl "@ + symbol
        + ";\n"@ + ".type "@ + symbol + ", STT_FUNC;\n"@ + symbol + ":\n"@
        + arch.custom_begin_spec() + ".cfi_startproc;\n"@ + arch.entry_code_spec(loader)
        + ".cfi_endproc;\n"@ + arch.custom_end_spec() + ".size "@ + symbol + ", . - "@ + symbol
        + ";\n"@ + ".popsection;\n"@
}

fn digit_str(d: u32) -> (r: &'static str)
    requires
        d < 10,
    ensures
        r@ == digit(d as nat),
{
    match d {
        0 => "0",
        1 => "1",
        2 => "2",
        3 => "3",
        4 => "4",
        5 => "5",
        6 => "6",
        7 => "7",
        8 => "8",
        _ => "9",
    }
}

fn decimal_text(n: u32) -> (r: String)
    ensures
        r@ == decimal(n as nat),
    decreases n,
{
    if n < 10 {
        String::from_str(digit_str(n))
    } else {
        let mut s = decimal_text(n / 10);
        s.append(digit_str(n % 10));
        s
    }
}

/// The assembly text of the entry point `symbol` for `arch`, placed in section
/// `section`, which calls `loader` with the stack pointer and then jumps to the
/// address the loader returned.
pub fn assembly(arch: Arch, section: &str, symbol: &str, loader: &str) -> (r: String)
    ensures
        r@ == assembly_text(arch, section@, symbol@, loader@),
{
    let mut out = String::from_str(".pushsection ");
    out.append(section);
    out.append(", \"ax\", ");
    let prefix = arch.asm_prefix("progbits");
    out.append(prefix.as_str());
    out.append(";\n");
    out.append(".balign ");
    let align = decimal_text(arch.entry_align());
    out.append(align.as_str());
    out.append(";\n");
    out.append(".globl ");
    out.append(symbol);
    out.append(";\n");
    out.append(".type ");
    out.append(symbol);
    out.append(", STT_FUNC;\n");
    out.append(symbol);
    out.append(":\n");
    let begin = arch.entry_custom_begin(symbol);
    out.append(begin.as_str());
    out.append(".cfi_startproc;\n");
    let code = arch.entry_code(loader);
    out.append(code.as_str());
    out.append(".cfi_endproc;\n");
    let end = arch.entry_custom_end(symbol);
    out.append(end.as_str());
    out.append(".size ");
    out.append(symbol);
    out.append(", . - ");
    out.append(symbol);
    out.append(";\n");
    out.append(".popsection;\n");
    proof {
        assert(prefix@ == seq![arch.prefix_char()] + "progbits"@);
    }
    out
}

} // verus!
