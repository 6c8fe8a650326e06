use vstd::prelude::*;

use crate::account::AccountId;
use crate::listing::spec_bump_u64;
use crate::listing::bump_u64;
use crate::settlement::MAX_FEE;

verus! {

/// Marketplace-wide configuration and running totals: who created the
/// marketplace, the fee rate every sale pays, and cumulative counters by
/// payment kind. The fee rate is fixed at creation; the counters only
/// ever grow, and only on successful operations.
#[derive(Clone, Copy, PartialEq, Eq, Structural, Debug)]
pub struct GlobalState {
    /// The identity that created the registry; immutable.
    pub owner: AccountId,
    /// Fee rate in basis points, at most `MAX_FEE`; immutable.
    pub fee_basis_points: u64,
    /// How many native-payment listings were ever created.
    pub listed_count_native: u32,
    /// How many token-payment listings were ever created.
    pub listed_count_token: u32,
    /// How many native-payment sales ever settled.
    pub sale_count_native: u64,
    /// How many token-payment sales ever settled.
    pub sale_count_token: u64,
    /// Cumulative native sale volume, in the ledger's native unit.
    pub sale_volume_native: u128,
    /// Cumulative token sale volume, in token units.
    pub sale_volume_token: u128,
}

/// A counter bump for the listed counts; stops at the ceiling rather
/// than wrapping.
pub open spec fn spec_bump_u32(x: u32) -> u32 {
    if x < u32::MAX {
        (x + 1) as u32
    } else {
        x
    }
}

pub fn bump_u32(x: u32) -> (r: u32)
    ensures
        r == spec_bump_u32(x),
{
    if x < u32::MAX {
        x + 1
    } else {
        x
    }
}

/// Adds a sale's price to a cumulative volume; stops at the ceiling
/// rather than wrapping.
pub open spec fn spec_saturating_widen_add(v: u128, p: u64) -> u128 {
    if v + p <= u128::MAX {
        (v + p) as u128
    } else {
        u128::MAX
    }
}

pub fn saturating_widen_add(v: u128, p: u64) -> (r: u128)
    ensures
        r == spec_saturating_widen_add(v, p),
{
    if v <= u128::MAX - (p as u128) {
        v + (p as u128)
    } else {
        u128::MAX
    }
}

impl GlobalState {
    /// A registry is well-formed when its fee rate is within the ceiling.
    pub open spec fn wf(self) -> bool {
        self.fee_basis_points <= MAX_FEE
    }

    /// The registry after one more listing of the given payment kind.
    pub open spec fn spec_with_listing(self, token: bool) -> GlobalState {
        if token {
            GlobalState { listed_count_token: spec_bump_u32(self.listed_count_token), ..self }
        } else {
            GlobalState { listed_count_native: spec_bump_u32(self.listed_count_native), ..self }
        }
    }

    /// The registry after one more settled sale of the given payment kind
    /// and price.
    pub open spec fn spec_with_sale(self, token: bool, price: u64) -> GlobalState {
        if token {
            GlobalState {
                sale_count_token: spec_bump_u64(self.sale_count_token),
                sale_volume_token: spec_saturating_widen_add(self.sale_volume_token, price),
                ..self
            }
        } else {
            GlobalState {
                sale_count_native: spec_bump_u64(self.sale_count_native),
                sale_volume_native: spec_saturating_widen_add(self.sale_volume_native, price),
                ..self
            }
        }
    }

    /// The counters never decrease, and recording activity never touches
    /// the registry's identity: the owner and the fee rate are fixed at
    /// creation, and the running totals only ever grow.
    pub proof fn lemma_counters_monotone(self, token: bool, price: u64)
        ensures
            self.spec_with_listing(token).owner == self.owner,
            self.spec_with_listing(token).fee_basis_points == self.fee_basis_points,
            self.spec_with_listing(token).listed_count_native >= self.listed_count_native,
            self.spec_with_listing(token).listed_count_token >= self.listed_count_token,
            self.spec_with_listing(token).sale_count_native == self.sale_count_native,
            self.spec_with_listing(token).sale_count_token == self.sale_count_token,
            self.spec_with_sale(token, price).owner == self.owner,
            self.spec_with_sale(token, price).fee_basis_points == self.fee_basis_points,
            self.spec_with_sale(token, price).sale_count_native >= self.sale_count_native,
            self.spec_with_sale(token, price).sale_count_token >= self.sale_count_token,
            self.spec_with_sale(token, price).sale_volume_native >= self.sale_volume_native,
            self.spec_with_sale(token, price).sale_volume_token >= self.sale_volume_token,
            self.spec_with_sale(token, price).listed_count_native == self.listed_count_native,
            self.spec_with_sale(token, price).listed_count_token == self.listed_count_token,
    {
    }

    /// Records one more listing of the given payment kind.
    pub fn record_listing(&mut self, token: bool)
        ensures
            *final(self) == old(self).spec_with_listing(token),
    {
        if token {
            self.listed_count_token = bump_u32(self.listed_count_token);
        } else {
            self.listed_count_native = bump_u32(self.listed_count_native);
        }
    }

    /// Records one more settled sale of the given payment kind and price.
    pub fn record_sale(&mut self, token: bool, price: u64)
        ensures
            *final(self) == old(self).spec_with_sale(token, price),
    {
        if token {
            self.sale_count_token = bump_u64(self.sale_count_token);
            self.sale_volume_token = saturating_widen_add(self.sale_volume_token, price);
        } else {
            self.sale_count_native = bump_u64(self.sale_count_native);
            self.sale_volume_native = saturating_widen_add(self.sale_volume_native, price);
        }
    }
}

} // verus!
