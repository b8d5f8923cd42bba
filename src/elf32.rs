//! The ELF structures of 32-bit files: 32-bit addresses and offsets.
use vstd::prelude::*;

verus! {

pub type Addend = i32;

pub type Align = crate::util::PhantomAlign32;

pub type Size = u32;

pub type Dyn = crate::elf::Dyn<Size, Align>;

pub type Ehdr = crate::elf::Ehdr<Size, Align>;

pub type Ident = crate::elf::Ident;

pub type Phdr = crate::elf::Phdr<Size, Align>;

pub type Rel = crate::elf::Rel<Size, Align>;

pub type Rela = crate::elf::Rela<Size, Align, Addend>;

pub type Shdr = crate::elf::Shdr<Size, Align>;

pub type Sym = crate::elf::Sym<Size, Align>;

} // verus!
