//! Fee arithmetic in basis points.
use vstd::prelude::*;

verus! {

/// Number of basis points in one whole.
pub const BPS_DENOMINATOR: u64 = 10000;

/// The fee taken from a sale: `floor(price * fee_bps / 10000)`.
pub open spec fn fee_of(price: int, fee_bps: int) -> int {
    (price * fee_bps) / 10000
}

/// What the maker receives: the price less the fee.
pub open spec fn maker_share_of(price: int, fee_bps: int) -> int {
    price - fee_of(price, fee_bps)
}

/// The fee on a sale at `price` with a rate of `fee_bps`, or `None` when
/// `price * fee_bps` does not fit in a `u64`.
pub fn compute_fee(price: u64, fee_bps: u16) -> (r: Option<u64>)
    ensures
        price * fee_bps <= u64::MAX ==> r == Some(fee_of(price as int, fee_bps as int) as u64),
        price * fee_bps > u64::MAX ==> r is None,
{
    match price.checked_mul(fee_bps as u64) {
        Some(p) => Some(p / BPS_DENOMINATOR),
        None => None,
    }
}

/// Splits `price` into `(fee, to_maker)`. `None` when `price * fee_bps`
/// overflows a `u64` or the fee would exceed the price.
pub fn split_payment(price: u64, fee_bps: u16) -> (r: Option<(u64, u64)>)
    ensures
        split_fits(price as int, fee_bps as int) ==> r == Some(
            (fee_of(price as int, fee_bps as int) as u64, maker_share_of(price as int, fee_bps as int) as u64),
        ),
        !split_fits(price as int, fee_bps as int) ==> r is None,
{
    match compute_fee(price, fee_bps) {
        Some(fee) => {
            if fee <= price {
                Some((fee, price - fee))
            } else {
                None
            }
        },
        None => None,
    }
}

/// Whether the checked arithmetic of a sale succeeds.
pub open spec fn split_fits(price: int, fee_bps: int) -> bool {
    price * fee_bps <= u64::MAX && fee_of(price, fee_bps) <= price
}

/// The fee is never negative and never more than the price when the rate is
/// at most one whole.
pub proof fn lemma_fee_at_most_price(price: int, fee_bps: int)
    requires
        0 <= price,
        0 <= fee_bps <= 10000,
    ensures
        0 <= fee_of(price, fee_bps) <= price,
{
    assert(0 <= price * fee_bps <= price * 10000) by (nonlinear_arith)
        requires 0 <= price, 0 <= fee_bps <= 10000;
    assert((price * 10000) / 10000 == price) by (nonlinear_arith);
    assert((price * fee_bps) / 10000 <= (price * 10000) / 10000) by (nonlinear_arith)
        requires price * fee_bps <= price * 10000;
    assert(0 <= (price * fee_bps) / 10000) by (nonlinear_arith)
        requires 0 <= price * fee_bps;
}

/// No currency unit is created or destroyed: for a rate of at most one
/// whole, the fee and the maker's share add up to the price, and each lies
/// between zero and the price.
pub proof fn lemma_split_conserves(price: u64, fee_bps: u16)
    requires
        fee_bps <= BPS_DENOMINATOR,
    ensures
        fee_of(price as int, fee_bps as int) + maker_share_of(price as int, fee_bps as int) == price,
        0 <= fee_of(price as int, fee_bps as int) <= price,
        0 <= maker_share_of(price as int, fee_bps as int) <= price,
{
    lemma_fee_at_most_price(price as int, fee_bps as int);
}

/// For a fixed rate, the fee does not decrease as the price grows.
pub proof fn lemma_fee_monotonic(low: u64, high: u64, fee_bps: u16)
    requires
        low <= high,
    ensures
        fee_of(low as int, fee_bps as int) <= fee_of(high as int, fee_bps as int),
{
    let a = low as int;
    let b = high as int;
    let f = fee_bps as int;
    assert(a * f <= b * f) by (nonlinear_arith)
        requires a <= b, 0 <= f;
    assert((a * f) / 10000 <= (b * f) / 10000) by (nonlinear_arith)
        requires a * f <= b * f;
}

} // verus!
