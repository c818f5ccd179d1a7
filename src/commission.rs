use vstd::prelude::*;

verus! {

/// Commission rates are in basis points: 10000 is the whole price.
pub const RATE_DENOMINATOR: u64 = 10000;

/// The affiliate's commission on `price` at `rate` basis points, rounded down.
pub open spec fn commission_of(price: int, rate: int) -> int {
    price * rate / (RATE_DENOMINATOR as int)
}

/// Whether a commission rate is within its bound.
pub open spec fn rate_in_bound(rate: int) -> bool {
    0 <= rate <= RATE_DENOMINATOR as int
}

/// Splits `price` into the affiliate's commission and the seller's share.
///
/// The product is formed in 128 bits, so it never overflows; the split fails
/// with `CalculationError` only where the commission would exceed the price,
/// which no rate within bound allows. The seller absorbs the rounding
/// remainder.
pub fn commission_split(price: u64, rate: u16) -> (r: Result<(u64, u64), crate::error::AffiliateError>)
    ensures
        commission_of(price as int, rate as int) <= price as int ==> r == Ok::<
            (u64, u64),
            crate::error::AffiliateError,
        >(
            (
                commission_of(price as int, rate as int) as u64,
                (price as int - commission_of(price as int, rate as int)) as u64,
            ),
        ),
        commission_of(price as int, rate as int) > price as int ==> r == Err::<
            (u64, u64),
            crate::error::AffiliateError,
        >(crate::error::AffiliateError::CalculationError),
{
    assert((price as int) * (rate as int) <= 0xffff_ffff_ffff_ffffint * 0xffffint) by (nonlinear_arith)
        requires
            price <= 0xffff_ffff_ffff_ffffu64,
            rate <= 0xffffu16,
    ;
    let wide: u128 = (price as u128) * (rate as u128);
    let commission_wide: u128 = wide / (RATE_DENOMINATOR as u128);
    if commission_wide > u64::MAX as u128 {
        return Err(crate::error::AffiliateError::CalculationError);
    }
    let commission: u64 = commission_wide as u64;
    if commission > price {
        return Err(crate::error::AffiliateError::CalculationError);
    }
    Ok((commission, price - commission))
}

/// For a rate within bound, the commission is at most the price, the
/// commission and the seller's share add up to the price exactly, and the
/// commission falls short of the exact product by less than one unit: that
/// remainder stays with the seller.
pub proof fn lemma_split_is_exact(price: u64, rate: u16)
    requires
        rate_in_bound(rate as int),
    ensures
        0 <= commission_of(price as int, rate as int) <= price as int,
        commission_of(price as int, rate as int) + (price as int - commission_of(
            price as int,
            rate as int,
        )) == price as int,
        0 <= price * rate - commission_of(price as int, rate as int) * 10000,
        price * rate - commission_of(price as int, rate as int) * 10000 < 10000,
{
    let p = price as int;
    let q = rate as int;
    assert(0 <= p * q <= p * 10000) by (nonlinear_arith)
        requires
            0 <= p,
            0 <= q <= 10000,
    ;
    let c = p * q / 10000;
    assert(0 <= c <= p && 0 <= p * q - c * 10000 < 10000) by (nonlinear_arith)
        requires
            0 <= p * q <= p * 10000,
            c == p * q / 10000,
            0 <= p,
    ;
}

} // verus!
