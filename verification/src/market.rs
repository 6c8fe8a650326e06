use vstd::prelude::*;

use crate::account::AccountId;
use crate::errors::ErrorCode;
use crate::errors::TransferError;
use crate::errors::spec_transfer_error_code;
use crate::errors::transfer_error_code;
use crate::listing::Listing;
use crate::listing::ListingKey;
use crate::listing::ListingState;
use crate::listing::PaymentKind;
use crate::listing::price_in_range;
use crate::listing::bump_u64;
use crate::listing::spec_new_listing;
use crate::registry::GlobalState;
use crate::settlement::MIN_PRICE;
use crate::settlement::MAX_PRICE;
use crate::settlement::MAX_FEE;
use crate::settlement::Settlement;
use crate::settlement::compute_settlement;
use crate::settlement::spec_fee;
use crate::settlement::spec_seller_proceeds;
use crate::store::ListingStore;
use crate::store::active_index;
use crate::store::active_listing;
use crate::store::has_active;
use crate::store::lemma_active_index_unique;
use crate::store::lemma_filter_active_wf;
use crate::store::active_only;
use crate::store::from_active;
use crate::store::store_wf;
use crate::transfer::CancelPlan;
use crate::transfer::PurchasePlan;
use crate::transfer::TransferAuthority;
use crate::transfer::TransferLeg;
use crate::transfer::TransferValue;

verus! {

/// Every listing the store holds carries a price within range.
pub open spec fn all_listings_wf(s: Seq<Listing>) -> bool {
    forall|i: int| 0 <= i < s.len() ==> (#[trigger] s[i]).wf()
}

pub proof fn lemma_all_wf_update(s: Seq<Listing>, i: int, l: Listing)
    requires
        all_listings_wf(s),
        0 <= i < s.len(),
        l.wf(),
    ensures
        all_listings_wf(s.update(i, l)),
{
    let t = s.update(i, l);
    assert forall|j: int| 0 <= j < t.len() implies (#[trigger] t[j]).wf() by {
        if j != i {
            assert(s[j].wf());
        }
    }
}

pub proof fn lemma_all_wf_push(s: Seq<Listing>, l: Listing)
    requires
        all_listings_wf(s),
        l.wf(),
    ensures
        all_listings_wf(s.push(l)),
{
    let t = s.push(l);
    assert forall|j: int| 0 <= j < t.len() implies (#[trigger] t[j]).wf() by {
        if j < s.len() {
            assert(s[j].wf());
        }
    }
}

/// Whether two marketplace values hold the same registry and the same
/// listings: what "no observable state change" means for an operation.
pub open spec fn same_marketplace(a: Marketplace, b: Marketplace) -> bool {
    a.global_state == b.global_state && a.store@ == b.store@
}

/// A terminal state is final. Cancelling or selling replaces the active
/// listing under a key with a terminal successor, and this is exactly
/// the store the successful operation leaves behind; afterwards the key
/// has no active listing, so — by the contracts of `update_price`,
/// `cancel_listing`, `buy_nft` and `buy_nft_with_spl`, and of their plan
/// steps — every later operation against it fails with
/// `InactiveListing`, changes nothing, and plans no further transfer.
pub proof fn lemma_terminal_state_is_final(
    s: Seq<Listing>,
    key: ListingKey,
    state: ListingState,
    now: i64,
)
    requires
        store_wf(s),
        has_active(s, key),
        !(state is Active),
    ensures
        !has_active(
            s.update(active_index(s, key), active_listing(s, key).spec_terminated(state, now)),
            key,
        ),
{
    let i = active_index(s, key);
    assert(0 <= i < s.len() && s[i].spec_is_active() && s[i].spec_key() == key);
    let t = s.update(i, active_listing(s, key).spec_terminated(state, now));
    assert forall|j: int|
        0 <= j < t.len() && #[trigger] t[j].spec_is_active() implies t[j].spec_key() != key by {
        if j != i {
            assert(s[j].spec_is_active());
            if s[j].spec_key() == key {
                assert(s[i].spec_key() != s[j].spec_key());
            }
        }
    }
}

/// The lifecycle manager: one marketplace registry and its listing store,
/// mutated only through the operations below. Each operation validates
/// fully before it changes anything, so every error leaves the
/// marketplace exactly as it was.
pub struct Marketplace {
    pub global_state: GlobalState,
    pub store: ListingStore,
}

impl Marketplace {
    /// The marketplace invariant: a well-formed registry, key-unique
    /// active listings, and every stored listing well-formed.
    pub open spec fn wf(&self) -> bool {
        &&& self.global_state.wf()
        &&& self.store.wf()
        &&& all_listings_wf(self.store@)
    }

    /// Creates a marketplace: an owner, a fee rate of at most `MAX_FEE`
    /// basis points, zeroed counters, and an empty listing store.
    pub fn initialize_marketplace(owner: AccountId, marketplace_fee_percentage: u64) -> (r: Result<
        Marketplace,
        ErrorCode,
    >)
        ensures
            marketplace_fee_percentage > MAX_FEE <==> r == Err::<Marketplace, ErrorCode>(
                ErrorCode::FeeTooHigh,
            ),
            marketplace_fee_percentage <= MAX_FEE ==> {
                &&& r is Ok
                &&& r->Ok_0.wf()
                &&& r->Ok_0.global_state == (GlobalState {
                    owner,
                    fee_basis_points: marketplace_fee_percentage,
                    listed_count_native: 0,
                    listed_count_token: 0,
                    sale_count_native: 0,
                    sale_count_token: 0,
                    sale_volume_native: 0,
                    sale_volume_token: 0,
                })
                &&& r->Ok_0.store@ == Seq::<Listing>::empty()
            },
    {
        if marketplace_fee_percentage > MAX_FEE {
            return Err(ErrorCode::FeeTooHigh);
        }
        let global_state = GlobalState {
            owner,
            fee_basis_points: marketplace_fee_percentage,
            listed_count_native: 0,
            listed_count_token: 0,
            sale_count_native: 0,
            sale_count_token: 0,
            sale_volume_native: 0,
            sale_volume_token: 0,
        };
        Ok(Marketplace { global_state, store: ListingStore::new() })
    }

    /// Reclaims the storage of terminal listing records: the store keeps
    /// exactly its active listings, in their original order. Terminal
    /// records are immutable and no operation finds them, so nothing
    /// observable changes besides the store shrinking.
    pub fn reclaim(&mut self)
        requires
            old(self).wf(),
        ensures
            final(self).wf(),
            final(self).global_state == old(self).global_state,
            final(self).store@ == active_only(old(self).store@),
    {
        let ghost s = self.store@;
        proof {
            lemma_filter_active_wf(s);
        }
        self.store.reclaim();
        proof {
            let t = self.store@;
            assert forall|p: int| 0 <= p < t.len() implies (#[trigger] t[p]).wf() by {
                assert(from_active(s, t[p]));
                let j = choose|j: int| 0 <= j < s.len() && t[p] == s[j] && s[j].spec_is_active();
                assert(s[j].wf());
            }
        }
    }

    /// Validates a native-payment listing request and describes the
    /// transfer that must succeed before the listing exists: one unit of
    /// the asset moves from the seller's holding account into custody,
    /// authorized by the seller. Touches no state.
    pub fn list_nft_plan(
        &self,
        seller: AccountId,
        nft_mint: AccountId,
        seller_asset_account: AccountId,
        custody_account: AccountId,
        price: u64,
    ) -> (r: Result<TransferLeg, ErrorCode>)
        requires
            self.wf(),
        ensures
            ({
                let key = (ListingKey { asset_id: nft_mint, seller, token_denominated: false });
                if !price_in_range(price) {
                    r == Err::<TransferLeg, ErrorCode>(ErrorCode::PriceOutOfRange)
                } else if has_active(self.store@, key) {
                    r == Err::<TransferLeg, ErrorCode>(ErrorCode::DuplicateListing)
                } else {
                    r == Ok::<TransferLeg, ErrorCode>(
                        (TransferLeg {
                            value: (TransferValue::AssetUnit { asset: nft_mint }),
                            from: seller_asset_account,
                            to: custody_account,
                            authority: TransferAuthority::Signer(seller),
                        }),
                    )
                }
            }),
    {
        if price < MIN_PRICE || price > MAX_PRICE {
            return Err(ErrorCode::PriceOutOfRange);
        }
        let key = ListingKey { asset_id: nft_mint, seller, token_denominated: false };
        match self.store.find_active(key) {
            Some(_) => Err(ErrorCode::DuplicateListing),
            None => Ok(
                TransferLeg {
                    value: TransferValue::AssetUnit { asset: nft_mint },
                    from: seller_asset_account,
                    to: custody_account,
                    authority: TransferAuthority::Signer(seller),
                },
            ),
        }
    }

    /// Records a native-payment listing once the ledger has reported on
    /// the custody transfer. The request is validated again in full; on
    /// any error, including a failed transfer, no listing is created and
    /// nothing changes. A reported transfer failure is propagated.
    pub fn list_nft(
        &mut self,
        seller: AccountId,
        nft_mint: AccountId,
        custody_account: AccountId,
        price: u64,
        now: i64,
        transfer: Result<(), TransferError>,
    ) -> (r: Result<(), ErrorCode>)
        requires
            old(self).wf(),
        ensures
            final(self).wf(),
            ({
                let s = old(self).store@;
                let key = (ListingKey { asset_id: nft_mint, seller, token_denominated: false });
                let nl = spec_new_listing(
                    seller,
                    nft_mint,
                    custody_account,
                    price,
                    PaymentKind::Native,
                    seller,
                    now,
                );
                if !price_in_range(price) {
                    r == Err::<(), ErrorCode>(ErrorCode::PriceOutOfRange) && same_marketplace(
                        *old(self),
                        *final(self),
                    )
                } else if has_active(s, key) {
                    r == Err::<(), ErrorCode>(ErrorCode::DuplicateListing) && same_marketplace(
                        *old(self),
                        *final(self),
                    )
                } else if transfer is Err {
                    r == Err::<(), ErrorCode>(spec_transfer_error_code(transfer->Err_0))
                        && same_marketplace(*old(self), *final(self))
                } else {
                    r == Ok::<(), ErrorCode>(()) && final(self).store@ == s.push(nl) && final(self).global_state == old(self).global_state.spec_with_listing(false)
                }
            }),
    {
        if price < MIN_PRICE || price > MAX_PRICE {
            return Err(ErrorCode::PriceOutOfRange);
        }
        let nl = Listing {
            seller,
            asset_id: nft_mint,
            custody_account,
            price,
            created_at: now,
            updated_at: now,
            payment_kind: PaymentKind::Native,
            payment_recipient: seller,
            state: ListingState::Active,
            version: 0,
        };
        match self.store.find_active(nl.key()) {
            Some(_) => Err(ErrorCode::DuplicateListing),
            None => match transfer {
                Err(e) => Err(transfer_error_code(e)),
                Ok(()) => {
                    proof {
                        lemma_all_wf_push(self.store@, nl);
                    }
                    let inserted = self.store.insert(nl);
                    self.global_state.record_listing(false);
                    inserted
                },
            },
        }
    }

    /// Validates a token-payment listing request and describes the
    /// custody transfer, exactly as `list_nft_plan` does for the native
    /// path. Touches no state.
    pub fn list_nft_in_spl_plan(
        &self,
        seller: AccountId,
        nft_mint: AccountId,
        seller_asset_account: AccountId,
        custody_account: AccountId,
        price: u64,
    ) -> (r: Result<TransferLeg, ErrorCode>)
        requires
            self.wf(),
        ensures
            ({
                let key = (ListingKey { asset_id: nft_mint, seller, token_denominated: true });
                if !price_in_range(price) {
                    r == Err::<TransferLeg, ErrorCode>(ErrorCode::PriceOutOfRange)
                } else if has_active(self.store@, key) {
                    r == Err::<TransferLeg, ErrorCode>(ErrorCode::DuplicateListing)
                } else {
                    r == Ok::<TransferLeg, ErrorCode>(
                        (TransferLeg {
                            value: (TransferValue::AssetUnit { asset: nft_mint }),
                            from: seller_asset_account,
                            to: custody_account,
                            authority: TransferAuthority::Signer(seller),
                        }),
                    )
                }
            }),
    {
        if price < MIN_PRICE || price > MAX_PRICE {
            return Err(ErrorCode::PriceOutOfRange);
        }
        let key = ListingKey { asset_id: nft_mint, seller, token_denominated: true };
        match self.store.find_active(key) {
            Some(_) => Err(ErrorCode::DuplicateListing),
            None => Ok(
                TransferLeg {
                    value: TransferValue::AssetUnit { asset: nft_mint },
                    from: seller_asset_account,
                    to: custody_account,
                    authority: TransferAuthority::Signer(seller),
                },
            ),
        }
    }

    /// Records a token-payment listing once the ledger has reported on
    /// the custody transfer: the listing remembers the token it is to be
    /// paid in and the seller's token account that is to receive the
    /// proceeds. On any error nothing changes.
    pub fn list_nft_in_spl(
        &mut self,
        seller: AccountId,
        nft_mint: AccountId,
        custody_account: AccountId,
        price: u64,
        trade_token_mint: AccountId,
        trade_token_seller_account: AccountId,
        now: i64,
        transfer: Result<(), TransferError>,
    ) -> (r: Result<(), ErrorCode>)
        requires
            old(self).wf(),
        ensures
            final(self).wf(),
            ({
                let s = old(self).store@;
                let key = (ListingKey { asset_id: nft_mint, seller, token_denominated: true });
                let nl = spec_new_listing(
                    seller,
                    nft_mint,
                    custody_account,
                    price,
                    (PaymentKind::Token { mint: trade_token_mint }),
                    trade_token_seller_account,
                    now,
                );
                if !price_in_range(price) {
                    r == Err::<(), ErrorCode>(ErrorCode::PriceOutOfRange) && same_marketplace(
                        *old(self),
                        *final(self),
                    )
                } else if has_active(s, key) {
                    r == Err::<(), ErrorCode>(ErrorCode::DuplicateListing) && same_marketplace(
                        *old(self),
                        *final(self),
                    )
                } else if transfer is Err {
                    r == Err::<(), ErrorCode>(spec_transfer_error_code(transfer->Err_0))
                        && same_marketplace(*old(self), *final(self))
                } else {
                    r == Ok::<(), ErrorCode>(()) && final(self).store@ == s.push(nl) && final(self).global_state == old(self).global_state.spec_with_listing(true)
                }
            }),
    {
        if price < MIN_PRICE || price > MAX_PRICE {
            return Err(ErrorCode::PriceOutOfRange);
        }
        let nl = Listing {
            seller,
            asset_id: nft_mint,
            custody_account,
            price,
            created_at: now,
            updated_at: now,
            payment_kind: PaymentKind::Token { mint: trade_token_mint },
            payment_recipient: trade_token_seller_account,
            state: ListingState::Active,
            version: 0,
        };
        match self.store.find_active(nl.key()) {
            Some(_) => Err(ErrorCode::DuplicateListing),
            None => match transfer {
                Err(e) => Err(transfer_error_code(e)),
                Ok(()) => {
                    proof {
                        lemma_all_wf_push(self.store@, nl);
                    }
                    let inserted = self.store.insert(nl);
                    self.global_state.record_listing(true);
                    inserted
                },
            },
        }
    }

    /// Changes the price of an active listing. Only the seller may do
    /// so, and only to a price within range; nothing moves on the ledger.
    pub fn update_price(
        &mut self,
        key: ListingKey,
        caller: AccountId,
        new_price: u64,
        now: i64,
    ) -> (r: Result<(), ErrorCode>)
        requires
            old(self).wf(),
        ensures
            final(self).wf(),
            final(self).global_state == old(self).global_state,
            ({
                let s = old(self).store@;
                let l = active_listing(s, key);
                if !has_active(s, key) {
                    r == Err::<(), ErrorCode>(ErrorCode::InactiveListing) && final(self).store@
                        == s
                } else if caller != l.seller {
                    r == Err::<(), ErrorCode>(ErrorCode::InvalidAccess) && final(self).store@ == s
                } else if !price_in_range(new_price) {
                    r == Err::<(), ErrorCode>(ErrorCode::PriceOutOfRange) && final(self).store@
                        == s
                } else {
                    r == Ok::<(), ErrorCode>(()) && final(self).store@ == s.update(
                        active_index(s, key),
                        l.spec_with_price(new_price, now),
                    )
                }
            }),
    {
        match self.store.find_active(key) {
            None => Err(ErrorCode::InactiveListing),
            Some(i) => {
                proof {
                    lemma_active_index_unique(self.store@, key, i as int);
                }
                let l = self.store.listing_at(i);
                if caller != l.seller {
                    return Err(ErrorCode::InvalidAccess);
                }
                if new_price < MIN_PRICE || new_price > MAX_PRICE {
                    return Err(ErrorCode::PriceOutOfRange);
                }
                let nl = Listing {
                    price: new_price,
                    updated_at: now,
                    version: bump_u64(l.version),
                    ..l
                };
                proof {
                    lemma_all_wf_update(self.store@, i as int, nl);
                }
                self.store.replace_at(i, nl);
                Ok(())
            },
        }
    }

    /// Validates a cancellation and describes the transfer that returns
    /// the asset from custody to the seller, authorized by the listing's
    /// derived custody authority — never by a personal key. Only the
    /// seller may cancel. Touches no state.
    pub fn cancel_listing_plan(
        &self,
        key: ListingKey,
        caller: AccountId,
        seller_asset_account: AccountId,
    ) -> (r: Result<CancelPlan, ErrorCode>)
        requires
            self.wf(),
        ensures
            ({
                let s = self.store@;
                let l = active_listing(s, key);
                if !has_active(s, key) {
                    r == Err::<CancelPlan, ErrorCode>(ErrorCode::InactiveListing)
                } else if caller != l.seller {
                    r == Err::<CancelPlan, ErrorCode>(ErrorCode::InvalidAccess)
                } else {
                    r == Ok::<CancelPlan, ErrorCode>(
                        (CancelPlan {
                            listing_version: l.version,
                            return_asset: (TransferLeg {
                                value: (TransferValue::AssetUnit { asset: l.asset_id }),
                                from: l.custody_account,
                                to: seller_asset_account,
                                authority: TransferAuthority::Derived(key),
                            }),
                        }),
                    )
                }
            }),
    {
        match self.store.find_active(key) {
            None => Err(ErrorCode::InactiveListing),
            Some(i) => {
                proof {
                    lemma_active_index_unique(self.store@, key, i as int);
                }
                let l = self.store.listing_at(i);
                if caller != l.seller {
                    return Err(ErrorCode::InvalidAccess);
                }
                Ok(
                    CancelPlan {
                        listing_version: l.version,
                        return_asset: TransferLeg {
                            value: TransferValue::AssetUnit { asset: l.asset_id },
                            from: l.custody_account,
                            to: seller_asset_account,
                            authority: TransferAuthority::Derived(key),
                        },
                    },
                )
            },
        }
    }

    /// Closes a listing once the ledger has reported on the return
    /// transfer: the record becomes terminal (`Cancelled`) and can never
    /// be mutated again. The request is validated again in full, and a
    /// listing that changed since the plan was made is refused; on any
    /// error, including a failed transfer, nothing changes.
    pub fn cancel_listing(
        &mut self,
        key: ListingKey,
        caller: AccountId,
        listing_version: u64,
        now: i64,
        transfer: Result<(), TransferError>,
    ) -> (r: Result<(), ErrorCode>)
        requires
            old(self).wf(),
        ensures
            final(self).wf(),
            final(self).global_state == old(self).global_state,
            ({
                let s = old(self).store@;
                let l = active_listing(s, key);
                if !has_active(s, key) {
                    r == Err::<(), ErrorCode>(ErrorCode::InactiveListing) && final(self).store@
                        == s
                } else if caller != l.seller {
                    r == Err::<(), ErrorCode>(ErrorCode::InvalidAccess) && final(self).store@ == s
                } else if l.version != listing_version {
                    r == Err::<(), ErrorCode>(ErrorCode::ConcurrentModification) && final(self).store@ == s
                } else if transfer is Err {
                    r == Err::<(), ErrorCode>(spec_transfer_error_code(transfer->Err_0)) && final(self).store@ == s
                } else {
                    r == Ok::<(), ErrorCode>(()) && final(self).store@ == s.update(
                        active_index(s, key),
                        l.spec_terminated(ListingState::Cancelled, now),
                    )
                }
            }),
    {
        match self.store.find_active(key) {
            None => Err(ErrorCode::InactiveListing),
            Some(i) => {
                proof {
                    lemma_active_index_unique(self.store@, key, i as int);
                }
                let l = self.store.listing_at(i);
                if caller != l.seller {
                    return Err(ErrorCode::InvalidAccess);
                }
                if l.version != listing_version {
                    return Err(ErrorCode::ConcurrentModification);
                }
                match transfer {
                    Err(e) => Err(transfer_error_code(e)),
                    Ok(()) => {
                        let nl = Listing {
                            state: ListingState::Cancelled,
                            updated_at: now,
                            version: bump_u64(l.version),
                            ..l
                        };
                        proof {
                            lemma_all_wf_update(self.store@, i as int, nl);
                        }
                        self.store.replace_at(i, nl);
                        Ok(())
                    },
                }
            },
        }
    }

    /// Validates a native-payment purchase and describes its three legs,
    /// which the ledger must apply as one unit: the seller proceeds and
    /// the marketplace fee leave the buyer, and the asset leaves custody
    /// for the buyer under the derived custody authority. The tendered
    /// amount must equal the listing price, and the listing must be a
    /// native-payment one. Touches no state.
    pub fn buy_nft_plan(
        &self,
        key: ListingKey,
        buyer: AccountId,
        buyer_asset_account: AccountId,
        marketplace_account: AccountId,
        amount: u64,
    ) -> (r: Result<PurchasePlan, ErrorCode>)
        requires
            self.wf(),
        ensures
            ({
                let s = self.store@;
                let l = active_listing(s, key);
                let bps = self.global_state.fee_basis_points;
                if !has_active(s, key) {
                    r == Err::<PurchasePlan, ErrorCode>(ErrorCode::InactiveListing)
                } else if amount != l.price {
                    r == Err::<PurchasePlan, ErrorCode>(ErrorCode::IncorrectAmount)
                } else if l.payment_kind.spec_is_token() {
                    r == Err::<PurchasePlan, ErrorCode>(ErrorCode::IncorrectPaymentMethod)
                } else {
                    r == Ok::<PurchasePlan, ErrorCode>(
                        (PurchasePlan {
                            listing_version: l.version,
                            pay_seller: (TransferLeg {
                                value: (TransferValue::Native {
                                    amount: spec_seller_proceeds(l.price, bps),
                                }),
                                from: buyer,
                                to: l.payment_recipient,
                                authority: TransferAuthority::Signer(buyer),
                            }),
                            pay_fee: (TransferLeg {
                                value: (TransferValue::Native { amount: spec_fee(l.price, bps) }),
                                from: buyer,
                                to: marketplace_account,
                                authority: TransferAuthority::Signer(buyer),
                            }),
                            release_asset: (TransferLeg {
                                value: (TransferValue::AssetUnit { asset: l.asset_id }),
                                from: l.custody_account,
                                to: buyer_asset_account,
                                authority: TransferAuthority::Derived(key),
                            }),
                        }),
                    )
                }
            }),
    {
        match self.store.find_active(key) {
            None => Err(ErrorCode::InactiveListing),
            Some(i) => {
                proof {
                    lemma_active_index_unique(self.store@, key, i as int);
                    assert(self.store@[i as int].wf());
                }
                let l = self.store.listing_at(i);
                if amount != l.price {
                    return Err(ErrorCode::IncorrectAmount);
                }
                if l.payment_kind.is_token() {
                    return Err(ErrorCode::IncorrectPaymentMethod);
                }
                let split = compute_settlement(l.price, self.global_state.fee_basis_points);
                Ok(
                    PurchasePlan {
                        listing_version: l.version,
                        pay_seller: TransferLeg {
                            value: TransferValue::Native { amount: split.seller_proceeds },
                            from: buyer,
                            to: l.payment_recipient,
                            authority: TransferAuthority::Signer(buyer),
                        },
                        pay_fee: TransferLeg {
                            value: TransferValue::Native { amount: split.fee },
                            from: buyer,
                            to: marketplace_account,
                            authority: TransferAuthority::Signer(buyer),
                        },
                        release_asset: TransferLeg {
                            value: TransferValue::AssetUnit { asset: l.asset_id },
                            from: l.custody_account,
                            to: buyer_asset_account,
                            authority: TransferAuthority::Derived(key),
                        },
                    },
                )
            },
        }
    }

    /// Settles a native-payment purchase once the ledger has reported on
    /// the three legs: the listing becomes terminal (`Sold`) and the
    /// registry's native sale counters grow by one sale of the listing's
    /// price. The request is validated again in full, and a listing that
    /// changed since the plan was made is refused. If the ledger reported
    /// failure on the indivisible leg set, nothing changes and the
    /// purchase fails as a whole.
    pub fn buy_nft(
        &mut self,
        key: ListingKey,
        amount: u64,
        listing_version: u64,
        now: i64,
        transfers: Result<(), TransferError>,
    ) -> (r: Result<Settlement, ErrorCode>)
        requires
            old(self).wf(),
        ensures
            final(self).wf(),
            ({
                let s = old(self).store@;
                let l = active_listing(s, key);
                let bps = old(self).global_state.fee_basis_points;
                if !has_active(s, key) {
                    r == Err::<Settlement, ErrorCode>(ErrorCode::InactiveListing)
                        && same_marketplace(*old(self), *final(self))
                } else if amount != l.price {
                    r == Err::<Settlement, ErrorCode>(ErrorCode::IncorrectAmount)
                        && same_marketplace(*old(self), *final(self))
                } else if l.payment_kind.spec_is_token() {
                    r == Err::<Settlement, ErrorCode>(ErrorCode::IncorrectPaymentMethod)
                        && same_marketplace(*old(self), *final(self))
                } else if l.version != listing_version {
                    r == Err::<Settlement, ErrorCode>(ErrorCode::ConcurrentModification)
                        && same_marketplace(*old(self), *final(self))
                } else if transfers is Err {
                    r == Err::<Settlement, ErrorCode>(ErrorCode::TransferFailed)
                        && same_marketplace(*old(self), *final(self))
                } else {
                    r == Ok::<Settlement, ErrorCode>(
                        (Settlement {
                            fee: spec_fee(l.price, bps),
                            seller_proceeds: spec_seller_proceeds(l.price, bps),
                        }),
                    ) && final(self).store@ == s.update(
                        active_index(s, key),
                        l.spec_terminated(ListingState::Sold, now),
                    ) && final(self).global_state == old(self).global_state.spec_with_sale(
                        false,
                        l.price,
                    )
                }
            }),
    {
        match self.store.find_active(key) {
            None => Err(ErrorCode::InactiveListing),
            Some(i) => {
                proof {
                    lemma_active_index_unique(self.store@, key, i as int);
                    assert(self.store@[i as int].wf());
                }
                let l = self.store.listing_at(i);
                if amount != l.price {
                    return Err(ErrorCode::IncorrectAmount);
                }
                if l.payment_kind.is_token() {
                    return Err(ErrorCode::IncorrectPaymentMethod);
                }
                if l.version != listing_version {
                    return Err(ErrorCode::ConcurrentModification);
                }
                match transfers {
                    Err(_) => Err(ErrorCode::TransferFailed),
                    Ok(()) => {
                        let split = compute_settlement(
                            l.price,
                            self.global_state.fee_basis_points,
                        );
                        let nl = Listing {
                            state: ListingState::Sold,
                            updated_at: now,
                            version: bump_u64(l.version),
                            ..l
                        };
                        proof {
                            lemma_all_wf_update(self.store@, i as int, nl);
                        }
                        self.store.replace_at(i, nl);
                        self.global_state.record_sale(false, l.price);
                        Ok(split)
                    },
                }
            },
        }
    }

    /// Validates a token-payment purchase and describes its three legs:
    /// the seller proceeds and the marketplace fee leave the buyer's
    /// token account in the listing's trade token, and the asset leaves
    /// custody for the buyer under the derived custody authority. The
    /// purchase path must match the listing's payment kind, and the
    /// tendered token must be the listing's trade token. Touches no
    /// state.
    pub fn buy_nft_with_spl_plan(
        &self,
        key: ListingKey,
        buyer: AccountId,
        buyer_token_account: AccountId,
        buyer_asset_account: AccountId,
        marketplace_fee_account: AccountId,
        amount: u64,
        trade_token_mint: AccountId,
    ) -> (r: Result<PurchasePlan, ErrorCode>)
        requires
            self.wf(),
        ensures
            ({
                let s = self.store@;
                let l = active_listing(s, key);
                let bps = self.global_state.fee_basis_points;
                if !has_active(s, key) {
                    r == Err::<PurchasePlan, ErrorCode>(ErrorCode::InactiveListing)
                } else if amount != l.price {
                    r == Err::<PurchasePlan, ErrorCode>(ErrorCode::IncorrectAmount)
                } else if !l.payment_kind.spec_is_token() {
                    r == Err::<PurchasePlan, ErrorCode>(ErrorCode::IncorrectPaymentMethod)
                } else if trade_token_mint != l.payment_kind->Token_mint {
                    r == Err::<PurchasePlan, ErrorCode>(ErrorCode::IncorrectTokenType)
                } else {
                    r == Ok::<PurchasePlan, ErrorCode>(
                        (PurchasePlan {
                            listing_version: l.version,
                            pay_seller: (TransferLeg {
                                value: (TransferValue::Token {
                                    mint: trade_token_mint,
                                    amount: spec_seller_proceeds(l.price, bps),
                                }),
                                from: buyer_token_account,
                                to: l.payment_recipient,
                                authority: TransferAuthority::Signer(buyer),
                            }),
                            pay_fee: (TransferLeg {
                                value: (TransferValue::Token {
                                    mint: trade_token_mint,
                                    amount: spec_fee(l.price, bps),
                                }),
                                from: buyer_token_account,
                                to: marketplace_fee_account,
                                authority: TransferAuthority::Signer(buyer),
                            }),
                            release_asset: (TransferLeg {
                                value: (TransferValue::AssetUnit { asset: l.asset_id }),
                                from: l.custody_account,
                                to: buyer_asset_account,
                                authority: TransferAuthority::Derived(key),
                            }),
                        }),
                    )
                }
            }),
    {
        match self.store.find_active(key) {
            None => Err(ErrorCode::InactiveListing),
            Some(i) => {
                proof {
                    lemma_active_index_unique(self.store@, key, i as int);
                    assert(self.store@[i as int].wf());
                }
                let l = self.store.listing_at(i);
                if amount != l.price {
                    return Err(ErrorCode::IncorrectAmount);
                }
                match l.payment_kind {
                    PaymentKind::Native => Err(ErrorCode::IncorrectPaymentMethod),
                    PaymentKind::Token { mint } => {
                        if trade_token_mint != mint {
                            return Err(ErrorCode::IncorrectTokenType);
                        }
                        let split = compute_settlement(
                            l.price,
                            self.global_state.fee_basis_points,
                        );
                        Ok(
                            PurchasePlan {
                                listing_version: l.version,
                                pay_seller: TransferLeg {
                                    value: TransferValue::Token {
                                        mint: trade_token_mint,
                                        amount: split.seller_proceeds,
                                    },
                                    from: buyer_token_account,
                                    to: l.payment_recipient,
                                    authority: TransferAuthority::Signer(buyer),
                                },
                                pay_fee: TransferLeg {
                                    value: TransferValue::Token {
                                        mint: trade_token_mint,
                                        amount: split.fee,
                                    },
                                    from: buyer_token_account,
                                    to: marketplace_fee_account,
                                    authority: TransferAuthority::Signer(buyer),
                                },
                                release_asset: TransferLeg {
                                    value: TransferValue::AssetUnit { asset: l.asset_id },
                                    from: l.custody_account,
                                    to: buyer_asset_account,
                                    authority: TransferAuthority::Derived(key),
                                },
                            },
                        )
                    },
                }
            },
        }
    }

    /// Settles a token-payment purchase once the ledger has reported on
    /// the three legs: the listing becomes terminal (`Sold`) and the
    /// registry's token sale counters grow by one sale of the listing's
    /// price. The request is validated again in full, and a listing that
    /// changed since the plan was made is refused. If the ledger reported
    /// failure on the indivisible leg set, nothing changes and the
    /// purchase fails as a whole.
    pub fn buy_nft_with_spl(
        &mut self,
        key: ListingKey,
        amount: u64,
        trade_token_mint: AccountId,
        listing_version: u64,
        now: i64,
        transfers: Result<(), TransferError>,
    ) -> (r: Result<Settlement, ErrorCode>)
        requires
            old(self).wf(),
        ensures
            final(self).wf(),
            ({
                let s = old(self).store@;
                let l = active_listing(s, key);
                let bps = old(self).global_state.fee_basis_points;
                if !has_active(s, key) {
                    r == Err::<Settlement, ErrorCode>(ErrorCode::InactiveListing)
                        && same_marketplace(*old(self), *final(self))
                } else if amount != l.price {
                    r == Err::<Settlement, ErrorCode>(ErrorCode::IncorrectAmount)
                        && same_marketplace(*old(self), *final(self))
                } else if !l.payment_kind.spec_is_token() {
                    r == Err::<Settlement, ErrorCode>(ErrorCode::IncorrectPaymentMethod)
                        && same_marketplace(*old(self), *final(self))
                } else if trade_token_mint != l.payment_kind->Token_mint {
                    r == Err::<Settlement, ErrorCode>(ErrorCode::IncorrectTokenType)
                        && same_marketplace(*old(self), *final(self))
                } else if l.version != listing_version {
                    r == Err::<Settlement, ErrorCode>(ErrorCode::ConcurrentModification)
                        && same_marketplace(*old(self), *final(self))
                } else if transfers is Err {
                    r == Err::<Settlement, ErrorCode>(ErrorCode::TransferFailed)
                        && same_marketplace(*old(self), *final(self))
                } else {
                    r == Ok::<Settlement, ErrorCode>(
                        (Settlement {
                            fee: spec_fee(l.price, bps),
                            seller_proceeds: spec_seller_proceeds(l.price, bps),
                        }),
                    ) && final(self).store@ == s.update(
                        active_index(s, key),
                        l.spec_terminated(ListingState::Sold, now),
                    ) && final(self).global_state == old(self).global_state.spec_with_sale(
                        true,
                        l.price,
                    )
                }
            }),
    {
        match self.store.find_active(key) {
            None => Err(ErrorCode::InactiveListing),
            Some(i) => {
                proof {
                    lemma_active_index_unique(self.store@, key, i as int);
                    assert(self.store@[i as int].wf());
                }
                let l = self.store.listing_at(i);
                if amount != l.price {
                    return Err(ErrorCode::IncorrectAmount);
                }
                match l.payment_kind {
                    PaymentKind::Native => Err(ErrorCode::IncorrectPaymentMethod),
                    PaymentKind::Token { mint } => {
                        if trade_token_mint != mint {
                            return Err(ErrorCode::IncorrectTokenType);
                        }
                        if l.version != listing_version {
                            return Err(ErrorCode::ConcurrentModification);
                        }
                        match transfers {
                            Err(_) => Err(ErrorCode::TransferFailed),
                            Ok(()) => {
                                let split = compute_settlement(
                                    l.price,
                                    self.global_state.fee_basis_points,
                                );
                                let nl = Listing {
                                    state: ListingState::Sold,
                                    updated_at: now,
                                    version: bump_u64(l.version),
                                    ..l
                                };
                                proof {
                                    lemma_all_wf_update(self.store@, i as int, nl);
                                }
                                self.store.replace_at(i, nl);
                                self.global_state.record_sale(true, l.price);
                                Ok(split)
                            },
                        }
                    },
                }
            },
        }
    }
}

} // verus!
