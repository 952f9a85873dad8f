//! Account identities.

use crate::uint::U256;
use vstd::prelude::*;

verus! {

/// The identity of a caller, a provider or a subscriber: an unsigned integer.
/// Zero is nobody's identity; it marks an empty slot.
#[derive(Clone, Copy, Debug, PartialEq, Eq, Hash)]
pub struct Address {
    pub word: U256,
}

impl View for Address {
    type V = nat;

    open spec fn view(&self) -> nat {
        self.word@
    }
}

impl Address {
    /// The reserved identity that stands for "nobody".
    pub fn zero() -> (r: Address)
        ensures
            r@ == 0,
    {
        Address { word: U256::zero() }
    }

    /// The identity numbered `word`.
    pub fn from_word(word: U256) -> (r: Address)
        ensures
            r@ == word@,
    {
        Address { word }
    }

    /// The identity numbered `x`.
    pub fn from_u64(x: u64) -> (r: Address)
        ensures
            r@ == x,
    {
        Address { word: U256::from_u64(x) }
    }

    /// Whether this is the reserved identity.
    pub fn is_zero(&self) -> (r: bool)
        ensures
            r == (self@ == 0),
    {
        self.word.is_zero()
    }

    /// Whether both are the same identity.
    pub fn same(&self, other: &Address) -> (r: bool)
        ensures
            r == (self@ == other@),
    {
        self.word.same(&other.word)
    }
}

} // verus!
