use runtime11::arch::Arch;
use runtime11::entrypoint::assembly;

const ARCHES: [Arch; 5] = [Arch::Arm, Arch::Arm64, Arch::Riscv64, Arch::X86, Arch::X86_64];

// Generate the dummy entry point and check that its label is defined.
#[test]
fn test_existence() {
    let text = assembly(
        Arch::X86_64,
        ".text.rt11_entrypoint_test",
        "rt11_entrypoint_test",
        "rt11_entrypoint_loader",
    );
    assert!(text.contains("\nrt11_entrypoint_test:\n"));
    assert!(text.contains("call rt11_entrypoint_loader;\n"));
}

#[test]
fn entry_align_is_zero_or_power_of_two() {
    for arch in ARCHES {
        let a = arch.entry_align();
        assert!(a == 0 || a.is_power_of_two());
    }
    assert_eq!(Arch::Arm.entry_align(), 0);
    assert_eq!(Arch::Arm64.entry_align(), 16);
    assert_eq!(Arch::Riscv64.entry_align(), 16);
    assert_eq!(Arch::X86.entry_align(), 16);
    assert_eq!(Arch::X86_64.entry_align(), 16);
}

#[test]
fn entry_code_calls_once_then_jumps_once() {
    let expected = [
        (Arch::Arm, "bl ldr;\n", "bx r0;\n"),
        (Arch::Arm64, "bl ldr;\n", "br x0;\n"),
        (Arch::Riscv64, "call ldr;\n", "jr a0;\n"),
        (Arch::X86, "call ldr;\n", "jmp eax;\n"),
        (Arch::X86_64, "call ldr;\n", "jmp rax;\n"),
    ];
    for (arch, call, jump) in expected {
        let code = arch.entry_code("ldr");
        assert_eq!(code.matches(call).count(), 1);
        assert_eq!(code.matches(jump).count(), 1);
        assert!(code.find(call).unwrap() < code.find(jump).unwrap());
        assert!(code.starts_with(".cfi_undefined "));
    }
}

#[test]
fn entry_code_texts() {
    assert_eq!(
        Arch::Arm.entry_code("ldr"),
        ".cfi_undefined r14;\nmov r0, sp;\nbl ldr;\nbx r0;\n"
    );
    assert_eq!(
        Arch::Arm64.entry_code("ldr"),
        ".cfi_undefined x30;\nmov x0, sp;\nbl ldr;\nbr x0;\n"
    );
    assert_eq!(
        Arch::Riscv64.entry_code("ldr"),
        ".cfi_undefined ra;\nmv a0, sp;\ncall ldr;\njr a0;\n"
    );
    assert_eq!(
        Arch::X86.entry_code("ldr"),
        ".cfi_undefined eip;\nmov eax, esp;\nsub esp, 12;\npush eax;\ncall ldr;\nadd esp, 16;\njmp eax;\n"
    );
    assert_eq!(
        Arch::X86_64.entry_code("ldr"),
        ".cfi_undefined rip;\nmov rdi, rsp;\ncall ldr;\njmp rax;\n"
    );
}

#[test]
fn asm_prefix_per_arch() {
    assert_eq!(Arch::Arm.asm_prefix("progbits"), "%progbits");
    assert_eq!(Arch::Arm64.asm_prefix("progbits"), "%progbits");
    assert_eq!(Arch::Riscv64.asm_prefix("progbits"), "%progbits");
    assert_eq!(Arch::X86.asm_prefix("progbits"), "@progbits");
    assert_eq!(Arch::X86_64.asm_prefix("progbits"), "@progbits");
}

#[test]
fn custom_begin_and_end() {
    assert_eq!(Arch::Arm.entry_custom_begin("s"), ".fnstart;\n");
    assert_eq!(Arch::Arm.entry_custom_end("s"), ".fnend;\n");
    assert_eq!(Arch::Arm64.entry_custom_begin("s"), "bti c;\n");
    assert_eq!(Arch::Arm64.entry_custom_end("s"), "");
    for arch in [Arch::Riscv64, Arch::X86, Arch::X86_64] {
        assert_eq!(arch.entry_custom_begin("s"), "");
        assert_eq!(arch.entry_custom_end("s"), "");
    }
}

#[test]
fn assembly_x86_64() {
    assert_eq!(
        assembly(Arch::X86_64, ".text", "_start", "loader_main"),
        ".pushsection .text, \"ax\", @progbits;\n\
         .balign 16;\n\
         .globl _start;\n\
         .type _start, STT_FUNC;\n\
         _start:\n\
         .cfi_startproc;\n\
         .cfi_undefined rip;\n\
         mov rdi, rsp;\n\
         call loader_main;\n\
         jmp rax;\n\
         .cfi_endproc;\n\
         .size _start, . - _start;\n\
         .popsection;\n"
    );
}

#[test]
fn assembly_arm() {
    assert_eq!(
        assembly(Arch::Arm, ".text", "_start", "loader_main"),
        ".pushsection .text, \"ax\", %progbits;\n\
         .balign 0;\n\
         .globl _start;\n\
         .type _start, STT_FUNC;\n\
         _start:\n\
         .fnstart;\n\
         .cfi_startproc;\n\
         .cfi_undefined r14;\n\
         mov r0, sp;\n\
         bl loader_main;\n\
         bx r0;\n\
         .cfi_endproc;\n\
         .fnend;\n\
         .size _start, . - _start;\n\
         .popsection;\n"
    );
}

#[test]
fn assembly_arm64_has_landing_pad() {
    let text = assembly(Arch::Arm64, ".text.entry", "entry", "boot");
    assert!(text.starts_with(".pushsection .text.entry, \"ax\", %progbits;\n.balign 16;\n"));
    assert!(text.contains("entry:\nbti c;\n.cfi_startproc;\n"));
    assert!(text.ends_with(".cfi_endproc;\n.size entry, . - entry;\n.popsection;\n"));
}
