//! The ELF scalar types of the machine this runs on: addresses and offsets as
//! wide as a pointer.
use vstd::prelude::*;

verus! {

pub type Addend = isize;

/// A zero-sized value aligned like a machine word.
pub type Align = [usize; 0];

pub type Size = usize;

pub type Ident = crate::elf::Ident;

} // verus!
