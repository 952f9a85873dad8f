//! Splitting a payment between the provider and the protocol.

use crate::model::{bps_scale, protocol_fee, provider_share};
use crate::uint::U256;
use vstd::prelude::*;

verus! {

/// The fee on a price is the fee on its whole ten-thousands plus the fee on
/// what is left over; neither part can overflow where the price itself fits.
proof fn lemma_fee_by_parts(price: nat, fee_bps: nat)
    requires
        fee_bps <= bps_scale(),
    ensures
        protocol_fee(price, fee_bps) == (price / 10000) * fee_bps + ((price % 10000) * fee_bps)
            / 10000,
        (price / 10000) * fee_bps <= price,
        (price % 10000) * fee_bps <= 100_000_000,
        protocol_fee(price, fee_bps) <= price,
{
    let q = price / 10000;
    let m = price % 10000;
    assert(price * fee_bps == (q * fee_bps) * 10000 + m * fee_bps) by (nonlinear_arith)
        requires
            price == q * 10000 + m,
    ;
    assert(((q * fee_bps) * 10000 + m * fee_bps) / 10000 == q * fee_bps + (m * fee_bps) / 10000)
        by (nonlinear_arith)
        requires
            m * fee_bps >= 0,
    ;
    assert(q * fee_bps <= q * 10000) by (nonlinear_arith)
        requires
            fee_bps <= 10000,
            q >= 0,
    ;
    assert(m * fee_bps <= m * 10000 && m * fee_bps <= 100_000_000) by (nonlinear_arith)
        requires
            fee_bps <= 10000,
            0 <= m < 10000,
    ;
    assert((m * fee_bps) / 10000 <= m) by (nonlinear_arith)
        requires
            m * fee_bps <= m * 10000,
            m >= 0,
    ;
}

/// Splits `price` at a rate of `fee_bps` basis points. Returns what goes to
/// the provider and what the protocol keeps; together they are the price.
pub fn split_payment(price: U256, fee_bps: u64) -> (r: (U256, U256))
    requires
        fee_bps <= bps_scale(),
    ensures
        r.0@ == provider_share(price@, fee_bps as nat),
        r.1@ == protocol_fee(price@, fee_bps as nat),
        r.0@ + r.1@ == price@,
{
    proof {
        lemma_fee_by_parts(price@, fee_bps as nat);
        price.lemma_bounded();
    }
    let scale = U256::from_u64(10000);
    let rate = U256::from_u64(fee_bps);
    let (whole, rest) = price.checked_div_rem(scale).unwrap();
    let on_whole = whole.checked_mul(rate).unwrap();
    let on_rest = rest.checked_mul(rate).unwrap().checked_div_rem(scale).unwrap().0;
    let fee = on_whole.checked_add(on_rest).unwrap();
    let share = price.checked_sub(fee).unwrap();
    (share, fee)
}

} // verus!
