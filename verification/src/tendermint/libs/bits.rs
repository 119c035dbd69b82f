//! `tendermint.libs.bits` messages.

use vstd::prelude::*;

verus! {

/// A fixed-size array of bits, packed into 64-bit words.
#[derive(Clone, Debug, PartialEq, Eq, Default)]
pub struct BitArray {
    /// Number of bits.
    pub bits: i64,
    /// The words that hold the bits.
    pub elems: Vec<u64>,
}

} // verus!
