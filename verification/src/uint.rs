//! 256-bit unsigned integers: the unit of every amount, identifier and duration
//! in the ledger.
//!
//! A value is stored as four 64-bit limbs, least significant first, and stands
//! for a natural number below 2^256. Arithmetic and ordering are those of
//! `stylus_sdk::alloy_primitives::U256`, which has the same limbs; each call
//! into it sits behind a small wrapper whose contract is taken on trust and is
//! stated over the numbers the operands stand for.

use vstd::prelude::*;

verus! {

/// 2^64, the weight of the second limb.
pub open spec fn limb_base() -> nat {
    0x1_0000_0000_0000_0000nat
}

/// An unsigned integer below 2^256, held as little-endian 64-bit limbs.
#[derive(Clone, Copy, Debug, PartialEq, Eq, Hash)]
pub struct U256 {
    pub limbs: [u64; 4],
}

impl View for U256 {
    type V = nat;

    /// The number this value stands for.
    open spec fn view(&self) -> nat {
        (self.limbs[0] as nat) + (self.limbs[1] as nat) * limb_base() + (self.limbs[2] as nat)
            * limb_base() * limb_base() + (self.limbs[3] as nat) * limb_base() * limb_base()
            * limb_base()
    }
}

impl U256 {
    /// The largest representable number, 2^256 - 1.
    pub open spec fn max_value() -> nat {
        0xffff_ffff_ffff_ffff_ffff_ffff_ffff_ffff_ffff_ffff_ffff_ffff_ffff_ffff_ffff_ffffnat
    }

    /// Every value stands for a number no larger than `max_value()`.
    pub proof fn lemma_bounded(self)
        ensures
            self@ <= Self::max_value(),
    {
    }

    /// Two values that stand for the same number have the same limbs.
    pub proof fn lemma_injective(self, other: U256)
        requires
            self@ == other@,
        ensures
            self.limbs[0] == other.limbs[0],
            self.limbs[1] == other.limbs[1],
            self.limbs[2] == other.limbs[2],
            self.limbs[3] == other.limbs[3],
    {
    }

    /// The number zero.
    pub fn zero() -> (r: U256)
        ensures
            r@ == 0,
    {
        U256 { limbs: [0, 0, 0, 0] }
    }

    /// The number `x`.
    pub fn from_u64(x: u64) -> (r: U256)
        ensures
            r@ == x,
    {
        U256 { limbs: [x, 0, 0, 0] }
    }

    /// Whether this is the number zero.
    pub fn is_zero(&self) -> (r: bool)
        ensures
            r == (self@ == 0),
    {
        self.limbs[0] == 0 && self.limbs[1] == 0 && self.limbs[2] == 0 && self.limbs[3] == 0
    }

    /// Whether both values stand for the same number.
    pub fn same(&self, other: &U256) -> (r: bool)
        ensures
            r == (self@ == other@),
    {
        proof {
            if self@ == other@ {
                self.lemma_injective(*other);
            }
        }
        self.limbs[0] == other.limbs[0] && self.limbs[1] == other.limbs[1] && self.limbs[2]
            == other.limbs[2] && self.limbs[3] == other.limbs[3]
    }
}


/// Calls `checked_add` of `stylus_sdk::alloy_primitives::U256`, on values
/// built from the operands' limbs. Claimed of it: the sum comes back exactly
/// where it is below 2^256, and nothing comes back otherwise.
#[verifier::external_body]
fn uint_checked_add(a: U256, b: U256) -> (r: Option<U256>)
    ensures
        match r {
            Some(s) => s@ == a@ + b@,
            None => a@ + b@ > U256::max_value(),
        },
{
    let x = stylus_sdk::alloy_primitives::U256::from_limbs(a.limbs);
    let y = stylus_sdk::alloy_primitives::U256::from_limbs(b.limbs);
    match x.checked_add(y) {
        Some(s) => Some(U256 { limbs: s.into_limbs() }),
        None => None,
    }
}

/// Calls `checked_sub` of `stylus_sdk::alloy_primitives::U256`, on values
/// built from the operands' limbs. Claimed of it: the difference comes back
/// exactly where the second operand does not exceed the first, and nothing
/// comes back otherwise.
#[verifier::external_body]
fn uint_checked_sub(a: U256, b: U256) -> (r: Option<U256>)
    ensures
        match r {
            Some(d) => a@ >= b@ && d@ == a@ - b@,
            None => a@ < b@,
        },
{
    let x = stylus_sdk::alloy_primitives::U256::from_limbs(a.limbs);
    let y = stylus_sdk::alloy_primitives::U256::from_limbs(b.limbs);
    match x.checked_sub(y) {
        Some(d) => Some(U256 { limbs: d.into_limbs() }),
        None => None,
    }
}

/// Calls `checked_mul` of `stylus_sdk::alloy_primitives::U256`, on values
/// built from the operands' limbs. Claimed of it: the product comes back
/// exactly where it is below 2^256, and nothing comes back otherwise.
#[verifier::external_body]
fn uint_checked_mul(a: U256, b: U256) -> (r: Option<U256>)
    ensures
        match r {
            Some(p) => p@ == a@ * b@,
            None => a@ * b@ > U256::max_value(),
        },
{
    let x = stylus_sdk::alloy_primitives::U256::from_limbs(a.limbs);
    let y = stylus_sdk::alloy_primitives::U256::from_limbs(b.limbs);
    match x.checked_mul(y) {
        Some(p) => Some(U256 { limbs: p.into_limbs() }),
        None => None,
    }
}

/// Calls `div_rem` of `stylus_sdk::alloy_primitives::U256`, on values built
/// from the operands' limbs. It panics on a zero divisor, so that input is
/// excluded. Claimed of it: the pair returned is the quotient, rounded down,
/// and the remainder.
#[verifier::external_body]
fn uint_div_rem(a: U256, b: U256) -> (r: (U256, U256))
    requires
        b@ != 0,
    ensures
        r.0@ == a@ / b@,
        r.1@ == a@ % b@,
{
    let x = stylus_sdk::alloy_primitives::U256::from_limbs(a.limbs);
    let y = stylus_sdk::alloy_primitives::U256::from_limbs(b.limbs);
    let (q, m) = x.div_rem(y);
    (U256 { limbs: q.into_limbs() }, U256 { limbs: m.into_limbs() })
}

/// Calls the `<` operator of `stylus_sdk::alloy_primitives::U256`, on values
/// built from the operands' limbs. Claimed of it: it orders values as the
/// numbers they stand for.
#[verifier::external_body]
fn uint_less_than(a: U256, b: U256) -> (r: bool)
    ensures
        r == (a@ < b@),
{
    let x = stylus_sdk::alloy_primitives::U256::from_limbs(a.limbs);
    let y = stylus_sdk::alloy_primitives::U256::from_limbs(b.limbs);
    x < y
}

impl U256 {
    /// `self + rhs`, or `None` where the sum does not fit.
    pub fn checked_add(self, rhs: U256) -> (r: Option<U256>)
        ensures
            self@ + rhs@ <= Self::max_value() ==> r is Some && r->0@ == self@ + rhs@,
            self@ + rhs@ > Self::max_value() ==> r is None,
    {
        let r = uint_checked_add(self, rhs);
        proof {
            if let Some(s) = r {
                s.lemma_bounded();
            }
        }
        r
    }

    /// `self - rhs`, or `None` where `rhs` is the larger.
    pub fn checked_sub(self, rhs: U256) -> (r: Option<U256>)
        ensures
            self@ >= rhs@ ==> r is Some && r->0@ == self@ - rhs@,
            self@ < rhs@ ==> r is None,
    {
        uint_checked_sub(self, rhs)
    }

    /// `self * rhs`, or `None` where the product does not fit.
    pub fn checked_mul(self, rhs: U256) -> (r: Option<U256>)
        ensures
            self@ * rhs@ <= Self::max_value() ==> r is Some && r->0@ == self@ * rhs@,
            self@ * rhs@ > Self::max_value() ==> r is None,
    {
        let r = uint_checked_mul(self, rhs);
        proof {
            if let Some(p) = r {
                p.lemma_bounded();
            }
        }
        r
    }

    /// Quotient and remainder of `self` by `rhs`, or `None` where `rhs` is zero.
    pub fn checked_div_rem(self, rhs: U256) -> (r: Option<(U256, U256)>)
        ensures
            match r {
                Some(qr) => rhs@ != 0 && qr.0@ == self@ / rhs@ && qr.1@ == self@ % rhs@,
                None => rhs@ == 0,
            },
    {
        if rhs.is_zero() {
            None
        } else {
            Some(uint_div_rem(self, rhs))
        }
    }

    /// Whether `self` stands for a smaller number than `other`.
    pub fn lt(&self, other: &U256) -> (r: bool)
        ensures
            r == (self@ < other@),
    {
        uint_less_than(*self, *other)
    }
}

} // verus!
