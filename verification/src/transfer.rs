use vstd::prelude::*;

use crate::account::AccountId;
use crate::listing::ListingKey;

verus! {

/// What a transfer leg moves: one unit of a unique asset, an amount of
/// the ledger's native unit, or an amount of a designated token.
#[derive(Clone, Copy, PartialEq, Eq, Structural, Debug)]
pub enum TransferValue {
    AssetUnit { asset: AccountId },
    Native { amount: u64 },
    Token { mint: AccountId, amount: u64 },
}

/// Who authorizes a transfer leg: a personal signing credential, or the
/// keyless authority derived from a listing, which the ledger accepts for
/// moving the asset out of that listing's custody escrow.
#[derive(Clone, Copy, PartialEq, Eq, Structural, Debug)]
pub enum TransferAuthority {
    Signer(AccountId),
    Derived(ListingKey),
}

/// One atomic ledger transfer: move `value` from `from` to `to`, under
/// `authority`.
#[derive(Clone, Copy, PartialEq, Eq, Structural, Debug)]
pub struct TransferLeg {
    pub value: TransferValue,
    pub from: AccountId,
    pub to: AccountId,
    pub authority: TransferAuthority,
}

/// The transfer to run for a cancellation: return the asset from custody
/// to the seller. Carries the version of the listing it was planned
/// against, so the finishing step can detect an interleaved change.
#[derive(Clone, Copy, PartialEq, Eq, Structural, Debug)]
pub struct CancelPlan {
    pub listing_version: u64,
    pub return_asset: TransferLeg,
}

/// The three legs of a purchase, all of which the ledger must apply as
/// one unit or not at all: pay the seller, pay the marketplace fee, and
/// release the asset from custody to the buyer. Carries the version of
/// the listing it was planned against.
#[derive(Clone, Copy, PartialEq, Eq, Structural, Debug)]
pub struct PurchasePlan {
    pub listing_version: u64,
    pub pay_seller: TransferLeg,
    pub pay_fee: TransferLeg,
    pub release_asset: TransferLeg,
}

} // verus!
