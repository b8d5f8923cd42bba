//! The structures of the Executable and Linkable Format.
//!
//! Each structure is generic over the width of addresses and offsets (`SIZE`)
//! and over a zero-sized marker (`ALIGN`) that gives it the alignment of that
//! width; `elf32` and `elf64` fix both.
use vstd::prelude::*;

verus! {

/// The identification table: the first 16 bytes of an ELF file, with named
/// fields in place of byte offsets.
#[derive(Clone, Copy, Debug, Default, Eq, Hash, Ord, PartialEq, PartialOrd)]
pub struct Ident {
    pub i_magic: [u8; 4],
    pub i_class: u8,
    pub i_data: u8,
    pub i_version: u8,
    pub i_osabi: u8,
    pub i_abiversion: u8,
    pub i_pad: [u8; 7],
}

/// The file header, which starts with the identification table.
#[derive(Clone, Copy, Debug, Default, Eq, Hash, Ord, PartialEq, PartialOrd)]
pub struct Ehdr<SIZE, ALIGN> {
    pub _align: ALIGN,
    pub e_ident: Ident,
    pub e_type: u16,
    pub e_machine: u16,
    pub e_version: u32,
    pub e_entry: SIZE,
    pub e_phoff: SIZE,
    pub e_shoff: SIZE,
    pub e_flags: u32,
    pub e_ehsize: u16,
    pub e_phentsize: u16,
    pub e_phnum: u16,
    pub e_shentsize: u16,
    pub e_shnum: u16,
    pub e_shstrndx: u16,
}

/// A section header: the metadata of one section and where its contents lie.
#[derive(Clone, Copy, Debug, Default, Eq, Hash, Ord, PartialEq, PartialOrd)]
pub struct Shdr<SIZE, ALIGN> {
    pub _align: ALIGN,
    pub sh_name: u32,
    pub sh_type: u32,
    pub sh_flags: SIZE,
    pub sh_addr: SIZE,
    pub sh_offset: SIZE,
    pub sh_size: SIZE,
    pub sh_link: u32,
    pub sh_info: u32,
    pub sh_addralign: SIZE,
    pub sh_entsize: SIZE,
}

/// A program header: the metadata of one segment and where its data lie.
#[derive(Clone, Copy, Debug, Default, Eq, Hash, Ord, PartialEq, PartialOrd)]
pub struct Phdr<SIZE, ALIGN> {
    pub _align: ALIGN,
    pub p_type: u32,
    pub p_offset: u32,
    pub p_vaddr: SIZE,
    pub p_paddr: SIZE,
    pub p_filesz: SIZE,
    pub p_memsz: SIZE,
    pub p_flags: SIZE,
    pub p_align: SIZE,
}

/// A symbol: a named reference to data in the file.
#[derive(Clone, Copy, Debug, Default, Eq, Hash, Ord, PartialEq, PartialOrd)]
pub struct Sym<SIZE, ALIGN> {
    pub _align: ALIGN,
    pub st_name: u32,
    pub st_value: SIZE,
    pub st_size: SIZE,
    pub st_info: u8,
    pub st_other: u8,
    pub st_shndx: u16,
}

/// An entry of the dynamic section. The union `d_un` of the C definition is
/// `d_val` alone here: its two members have the same size and type.
#[derive(Clone, Copy, Debug, Default, Eq, Hash, Ord, PartialEq, PartialOrd)]
pub struct Dyn<SIZE, ALIGN> {
    pub _align: ALIGN,
    pub d_tag: SIZE,
    pub d_val: SIZE,
}

/// A relocation with an implicit addend.
#[derive(Clone, Copy, Debug, Default, Eq, Hash, Ord, PartialEq, PartialOrd)]
pub struct Rel<SIZE, ALIGN> {
    pub _align: ALIGN,
    pub r_offset: SIZE,
    pub r_info: SIZE,
}

/// A relocation with an explicit addend.
#[derive(Clone, Copy, Debug, Default, Eq, Hash, Ord, PartialEq, PartialOrd)]
pub struct Rela<SIZE, ALIGN, ADDEND> {
    pub _align: ALIGN,
    pub r_offset: SIZE,
    pub r_info: SIZE,
    pub r_addend: ADDEND,
}

} // verus!
