//! Zero-sized alignment markers.
//!
//! Embedding one of these in a structure raises the structure's alignment to
//! at least the marker's, without adding to its size.
use vstd::prelude::*;

verus! {

/// A zero-sized value aligned to 8 bits.
#[derive(Clone, Copy, Debug, Default, Eq, Hash, Ord, PartialEq, PartialOrd)]
pub struct PhantomAlign8 {
    _align: [u8; 0],
}

/// A zero-sized value aligned to 16 bits.
#[derive(Clone, Copy, Debug, Default, Eq, Hash, Ord, PartialEq, PartialOrd)]
pub struct PhantomAlign16 {
    _align: [u16; 0],
}

/// A zero-sized value aligned to 32 bits.
#[derive(Clone, Copy, Debug, Default, Eq, Hash, Ord, PartialEq, PartialOrd)]
pub struct PhantomAlign32 {
    _align: [u32; 0],
}

/// A zero-sized value aligned to 64 bits.
#[derive(Clone, Copy, Debug, Default, Eq, Hash, Ord, PartialEq, PartialOrd)]
pub struct PhantomAlign64 {
    _align: [u64; 0],
}

} // verus!
