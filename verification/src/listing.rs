use vstd::prelude::*;

use crate::account::AccountId;
use crate::settlement::{MIN_PRICE, MAX_PRICE};

verus! {

/// How a listing is paid: in the ledger's native unit, or in a designated
/// fungible token.
#[derive(Clone, Copy, PartialEq, Eq, Structural, Debug)]
pub enum PaymentKind {
    Native,
    Token { mint: AccountId },
}

impl PaymentKind {
    /// Whether the payment is token-denominated.
    pub open spec fn spec_is_token(self) -> bool {
        self is Token
    }

    #[verifier::when_used_as_spec(spec_is_token)]
    pub fn is_token(self) -> (b: bool)
        ensures
            b == self.spec_is_token(),
    {
        match self {
            PaymentKind::Native => false,
            PaymentKind::Token { .. } => true,
        }
    }
}

/// Where a listing stands in its lifecycle. `Cancelled` and `Sold` are
/// terminal: no operation ever mutates a listing again once it has left
/// `Active`.
#[derive(Clone, Copy, PartialEq, Eq, Structural, Debug)]
pub enum ListingState {
    Active,
    Cancelled,
    Sold,
}

/// What identifies a listing: a seller may hold at most one active listing
/// per asset and payment kind, while different sellers may list the same
/// asset independently.
#[derive(Clone, Copy, PartialEq, Eq, Structural, Debug)]
pub struct ListingKey {
    pub asset_id: AccountId,
    pub seller: AccountId,
    pub token_denominated: bool,
}

/// One sale offer: a unique asset held in a custody escrow, offered at a
/// fixed price, payable natively or in a designated token.
#[derive(Clone, Copy, PartialEq, Eq, Structural, Debug)]
pub struct Listing {
    /// The party that created the listing; the only identity allowed to
    /// update or cancel it.
    pub seller: AccountId,
    /// The asset (mint) being sold.
    pub asset_id: AccountId,
    /// The escrow account holding the asset while the listing is active.
    pub custody_account: AccountId,
    /// The asking price, always within `[MIN_PRICE, MAX_PRICE]`.
    pub price: u64,
    /// When the listing was created.
    pub created_at: i64,
    /// When the listing last changed; set by every mutating operation.
    pub updated_at: i64,
    /// Whether payment is native or token-denominated.
    pub payment_kind: PaymentKind,
    /// The account that receives the seller proceeds.
    pub payment_recipient: AccountId,
    /// Lifecycle position; only `Active` listings can be mutated.
    pub state: ListingState,
    /// Bumped on every mutation; lets a caller detect that a listing
    /// changed between planning an operation and finishing it.
    pub version: u64,
}

impl Listing {
    /// The key under which the store holds this listing.
    pub open spec fn spec_key(self) -> ListingKey {
        ListingKey {
            asset_id: self.asset_id,
            seller: self.seller,
            token_denominated: self.payment_kind.spec_is_token(),
        }
    }

    #[verifier::when_used_as_spec(spec_key)]
    pub fn key(self) -> (k: ListingKey)
        ensures
            k == self.spec_key(),
    {
        ListingKey {
            asset_id: self.asset_id,
            seller: self.seller,
            token_denominated: self.payment_kind.is_token(),
        }
    }

    /// Whether the listing is still open to mutation and purchase.
    pub open spec fn spec_is_active(self) -> bool {
        self.state is Active
    }

    #[verifier::when_used_as_spec(spec_is_active)]
    pub fn is_active(self) -> (b: bool)
        ensures
            b == self.spec_is_active(),
    {
        match self.state {
            ListingState::Active => true,
            ListingState::Cancelled => false,
            ListingState::Sold => false,
        }
    }

    /// A well-formed listing carries a price within the allowed range.
    pub open spec fn wf(self) -> bool {
        price_in_range(self.price)
    }

    /// This listing after a price update: the new price, a fresh
    /// timestamp, a bumped version, everything else untouched.
    pub open spec fn spec_with_price(self, new_price: u64, now: i64) -> Listing {
        Listing { price: new_price, updated_at: now, version: spec_bump_u64(self.version), ..self }
    }

    /// This listing moved to a terminal state: the state, a fresh
    /// timestamp, a bumped version, everything else untouched.
    pub open spec fn spec_terminated(self, state: ListingState, now: i64) -> Listing {
        Listing { state, updated_at: now, version: spec_bump_u64(self.version), ..self }
    }
}

/// Whether a price is one a listing may carry.
pub open spec fn price_in_range(p: u64) -> bool {
    MIN_PRICE <= p <= MAX_PRICE
}

/// A freshly created listing: active, version zero, both timestamps set
/// to the creation time.
pub open spec fn spec_new_listing(
    seller: AccountId,
    asset_id: AccountId,
    custody_account: AccountId,
    price: u64,
    payment_kind: PaymentKind,
    payment_recipient: AccountId,
    now: i64,
) -> Listing {
    Listing {
        seller,
        asset_id,
        custody_account,
        price,
        created_at: now,
        updated_at: now,
        payment_kind,
        payment_recipient,
        state: ListingState::Active,
        version: 0,
    }
}

/// A counter bump that cannot overflow: the count stops at the type's
/// ceiling instead of wrapping or failing.
pub open spec fn spec_bump_u64(x: u64) -> u64 {
    if x < u64::MAX {
        (x + 1) as u64
    } else {
        x
    }
}

pub fn bump_u64(x: u64) -> (r: u64)
    ensures
        r == spec_bump_u64(x),
{
    if x < u64::MAX {
        x + 1
    } else {
        x
    }
}

} // verus!
