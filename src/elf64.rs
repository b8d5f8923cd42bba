//! The ELF structures of 64-bit files: 64-bit addresses and offsets.
//!
//! The program header and the symbol order their fields differently from the
//! generic structures, so that no padding falls between them.
use vstd::prelude::*;

verus! {

pub type Addend = i64;

pub type Align = crate::util::PhantomAlign64;

pub type Size = u64;

pub type Dyn = crate::elf::Dyn<Size, Align>;

pub type Ehdr = crate::elf::Ehdr<Size, Align>;

pub type Ident = crate::elf::Ident;

pub type Rel = crate::elf::Rel<Size, Align>;

pub type Rela = crate::elf::Rela<Size, Align, Addend>;

pub type Shdr = crate::elf::Shdr<Size, Align>;

/// The program header of 64-bit files.
#[derive(Clone, Copy, Debug, Default, Eq, Hash, Ord, PartialEq, PartialOrd)]
pub struct Phdr {
    pub _align: Align,
    pub p_type: u32,
    pub p_flags: u32,
    pub p_offset: Size,
    pub p_vaddr: Size,
    pub p_paddr: Size,
    pub p_filesz: Size,
    pub p_memsz: Size,
    pub p_align: Size,
}

/// The symbol of 64-bit files.
#[derive(Clone, Copy, Debug, Default, Eq, Hash, Ord, PartialEq, PartialOrd)]
pub struct Sym {
    pub _align: Align,
    pub st_name: u32,
    pub st_info: u8,
    pub st_other: u8,
    pub st_shndx: u16,
    pub st_value: Size,
    pub st_size: Size,
}

} // verus!
