use vstd::prelude::*;

verus! {

/// Smallest price a listing may carry.
pub const MIN_PRICE: u64 = 5;

/// Largest price a listing may carry.
pub const MAX_PRICE: u64 = 1000000000000;

/// Ceiling accepted for a registry's fee, in basis points.
pub const MAX_FEE: u64 = 40000;

/// Basis-point denominator: 10000 basis points are the whole price.
pub const FEE_DENOMINATOR: u64 = 10000;

/// The fee rate actually applied to a sale. A registry may be created
/// with a rate of up to `MAX_FEE` basis points, but settlement clamps the
/// applied rate at 100% of the price: a higher rate would make the seller
/// proceeds negative, so the excess is not honoured.
pub open spec fn effective_fee_bps(fee_bps: u64) -> u64 {
    if fee_bps > FEE_DENOMINATOR {
        FEE_DENOMINATOR
    } else {
        fee_bps
    }
}

/// The marketplace fee for a sale, as an unbounded integer: the price
/// times the effective fee rate, rounded down (the rounding loss favours
/// the seller).
pub open spec fn spec_fee_int(price: u64, fee_bps: u64) -> int {
    (price * effective_fee_bps(fee_bps)) / (FEE_DENOMINATOR as int)
}

/// The marketplace fee for a sale. Always between 0 and the price, so it
/// fits the price's own width (see `lemma_fee_bounds`).
pub open spec fn spec_fee(price: u64, fee_bps: u64) -> u64 {
    spec_fee_int(price, fee_bps) as u64
}

/// What the seller receives from a sale: the price less the fee.
pub open spec fn spec_seller_proceeds(price: u64, fee_bps: u64) -> u64 {
    (price - spec_fee_int(price, fee_bps)) as u64
}

/// The fee never exceeds the price, whatever rate the registry carries.
pub proof fn lemma_fee_bounds(price: u64, fee_bps: u64)
    ensures
        0 <= spec_fee_int(price, fee_bps) <= price,
        spec_fee(price, fee_bps) == spec_fee_int(price, fee_bps),
        spec_fee(price, fee_bps) + spec_seller_proceeds(price, fee_bps) == price,
{
    let e = effective_fee_bps(fee_bps) as int;
    let p = price as int;
    assert(0 <= e <= FEE_DENOMINATOR);
    assert(0 <= p * e <= p * (FEE_DENOMINATOR as int)) by (nonlinear_arith)
        requires
            0 <= e <= FEE_DENOMINATOR,
            0 <= p,
    ;
    assert(0 <= (p * e) / (FEE_DENOMINATOR as int) <= p) by (nonlinear_arith)
        requires
            0 <= p * e <= p * (FEE_DENOMINATOR as int),
            0 <= p,
    ;
}

/// No value is created or destroyed by a settlement: for any price and
/// any fee rate within the basis-point denominator, the fee and the
/// seller proceeds add up to exactly the price, and the fee is the
/// price times the rate, rounded down.
pub proof fn lemma_settlement_conservation(price: u64, fee_bps: u64)
    requires
        fee_bps <= FEE_DENOMINATOR,
    ensures
        spec_fee_int(price, fee_bps) == (price * fee_bps) / (FEE_DENOMINATOR as int),
        spec_fee(price, fee_bps) + spec_seller_proceeds(price, fee_bps) == price,
        0 <= spec_fee(price, fee_bps) <= price,
{
    lemma_fee_bounds(price, fee_bps);
}

/// The two sides of a payment split.
#[derive(Clone, Copy, PartialEq, Eq, Structural, Debug)]
pub struct Settlement {
    /// What the marketplace's fee collector receives.
    pub fee: u64,
    /// What the seller receives.
    pub seller_proceeds: u64,
}

/// Splits a price between the marketplace and the seller: the fee is the
/// price times the registry's fee rate (clamped at 100%), rounded down;
/// the seller receives the remainder.
pub fn compute_settlement(price: u64, fee_bps: u64) -> (s: Settlement)
    requires
        price <= MAX_PRICE,
    ensures
        s.fee == spec_fee(price, fee_bps),
        s.seller_proceeds == spec_seller_proceeds(price, fee_bps),
        s.fee + s.seller_proceeds == price,
        s.fee <= price,
{
    let rate: u64 = if fee_bps > FEE_DENOMINATOR {
        FEE_DENOMINATOR
    } else {
        fee_bps
    };
    proof {
        assert(price * rate <= MAX_PRICE * FEE_DENOMINATOR) by (nonlinear_arith)
            requires
                price <= MAX_PRICE,
                rate <= FEE_DENOMINATOR,
        ;
        lemma_fee_bounds(price, fee_bps);
    }
    let fee: u64 = price * rate / FEE_DENOMINATOR;
    Settlement { fee, seller_proceeds: price - fee }
}

} // verus!
