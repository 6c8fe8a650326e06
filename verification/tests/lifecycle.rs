use nft_marketplace::account::AccountId;
use nft_marketplace::errors::{ErrorCode, TransferError};
use nft_marketplace::listing::{ListingKey, ListingState, PaymentKind};
use nft_marketplace::market::Marketplace;
use nft_marketplace::settlement::{MAX_FEE, MAX_PRICE, MIN_PRICE};
use nft_marketplace::transfer::{TransferAuthority, TransferValue};

fn acct(id: u64) -> AccountId {
    AccountId { id }
}

fn market(fee_bps: u64) -> Marketplace {
    Marketplace::initialize_marketplace(acct(1), fee_bps).unwrap()
}

fn native_key(mint: AccountId, seller: AccountId) -> ListingKey {
    ListingKey { asset_id: mint, seller, token_denominated: false }
}

fn token_key(mint: AccountId, seller: AccountId) -> ListingKey {
    ListingKey { asset_id: mint, seller, token_denominated: true }
}

#[test]
fn registry_rejects_a_fee_above_the_ceiling() {
    let r = Marketplace::initialize_marketplace(acct(1), MAX_FEE + 1);
    assert!(matches!(r, Err(ErrorCode::FeeTooHigh)));
}

#[test]
fn registry_accepts_the_fee_ceiling_exactly() {
    let m = Marketplace::initialize_marketplace(acct(1), MAX_FEE).unwrap();
    assert_eq!(m.global_state.fee_basis_points, MAX_FEE);
    assert_eq!(m.global_state.sale_count_native, 0);
    assert_eq!(m.global_state.sale_volume_native, 0);
    assert_eq!(m.store.len(), 0);
}

#[test]
fn listing_rejects_prices_out_of_range() {
    let mut m = market(250);
    let below = m.list_nft(acct(2), acct(10), acct(20), MIN_PRICE - 1, 5, Ok(()));
    assert_eq!(below, Err(ErrorCode::PriceOutOfRange));
    let above = m.list_nft(acct(2), acct(10), acct(20), MAX_PRICE + 1, 5, Ok(()));
    assert_eq!(above, Err(ErrorCode::PriceOutOfRange));
    assert_eq!(m.store.len(), 0);
    let plan_below = m.list_nft_plan(acct(2), acct(10), acct(30), acct(20), MIN_PRICE - 1);
    assert_eq!(plan_below, Err(ErrorCode::PriceOutOfRange));
    // The token-payment path enforces the same bounds.
    let spl = m.list_nft_in_spl(acct(2), acct(10), acct(20), MIN_PRICE - 1, acct(40), acct(41), 5, Ok(()));
    assert_eq!(spl, Err(ErrorCode::PriceOutOfRange));
}

#[test]
fn listing_accepts_the_price_bounds_exactly() {
    let mut m = market(250);
    assert_eq!(m.list_nft(acct(2), acct(10), acct(20), MIN_PRICE, 5, Ok(())), Ok(()));
    assert_eq!(m.list_nft(acct(2), acct(11), acct(21), MAX_PRICE, 5, Ok(())), Ok(()));
    assert_eq!(m.store.len(), 2);
    assert_eq!(m.global_state.listed_count_native, 2);
}

#[test]
fn update_price_rejects_prices_out_of_range_and_accepts_the_bounds() {
    let mut m = market(250);
    let seller = acct(2);
    let mint = acct(10);
    m.list_nft(seller, mint, acct(20), 1000, 5, Ok(())).unwrap();
    let key = native_key(mint, seller);
    assert_eq!(m.update_price(key, seller, MIN_PRICE - 1, 6), Err(ErrorCode::PriceOutOfRange));
    assert_eq!(m.update_price(key, seller, MAX_PRICE + 1, 6), Err(ErrorCode::PriceOutOfRange));
    assert_eq!(m.store.get(key).unwrap().price, 1000);
    assert_eq!(m.update_price(key, seller, MIN_PRICE, 6), Ok(()));
    assert_eq!(m.store.get(key).unwrap().price, MIN_PRICE);
    assert_eq!(m.update_price(key, seller, MAX_PRICE, 7), Ok(()));
    let l = m.store.get(key).unwrap();
    assert_eq!(l.price, MAX_PRICE);
    assert_eq!(l.updated_at, 7);
    assert_eq!(l.created_at, 5);
}

#[test]
fn every_mutation_bumps_the_listing_version() {
    let mut m = market(250);
    let seller = acct(2);
    let trade_mint = acct(40);
    m.list_nft_in_spl(seller, acct(10), acct(20), 1000, trade_mint, acct(41), 5, Ok(())).unwrap();
    let key = token_key(acct(10), seller);
    assert_eq!(m.store.get(key).unwrap().version, 0);
    m.update_price(key, seller, 1500, 6).unwrap();
    let l = m.store.get(key).unwrap();
    assert_eq!(l.version, 1);
    assert_eq!(l.price, 1500);
    m.update_price(key, seller, 1600, 7).unwrap();
    assert_eq!(m.store.get(key).unwrap().version, 2);
    // The purchase must present the version it planned against.
    assert_eq!(
        m.buy_nft_with_spl(key, 1600, trade_mint, 1, 8, Ok(())),
        Err(ErrorCode::ConcurrentModification)
    );
    assert!(m.buy_nft_with_spl(key, 1600, trade_mint, 2, 8, Ok(())).is_ok());
}

#[test]
fn duplicate_active_listing_is_refused() {
    let mut m = market(250);
    m.list_nft(acct(2), acct(10), acct(20), 1000, 5, Ok(())).unwrap();
    let again = m.list_nft(acct(2), acct(10), acct(21), 2000, 6, Ok(()));
    assert_eq!(again, Err(ErrorCode::DuplicateListing));
    let plan = m.list_nft_plan(acct(2), acct(10), acct(30), acct(21), 2000);
    assert_eq!(plan, Err(ErrorCode::DuplicateListing));
    // A different seller, or the other payment kind, is an independent key.
    assert_eq!(m.list_nft(acct(3), acct(10), acct(22), 1500, 6, Ok(())), Ok(()));
    assert_eq!(
        m.list_nft_in_spl(acct(2), acct(10), acct(23), 1500, acct(40), acct(41), 6, Ok(())),
        Ok(())
    );
    assert_eq!(m.store.len(), 3);
}

#[test]
fn only_the_seller_may_update_the_price() {
    let mut m = market(250);
    let seller = acct(2);
    m.list_nft(seller, acct(10), acct(20), 1000, 5, Ok(())).unwrap();
    let key = native_key(acct(10), seller);
    assert_eq!(m.update_price(key, acct(9), 2000, 6), Err(ErrorCode::InvalidAccess));
    assert_eq!(m.store.get(key).unwrap().price, 1000);
    assert_eq!(m.update_price(key, seller, 2000, 6), Ok(()));
    assert_eq!(m.store.get(key).unwrap().price, 2000);
}

#[test]
fn only_the_seller_may_cancel() {
    let mut m = market(250);
    let seller = acct(2);
    m.list_nft(seller, acct(10), acct(20), 1000, 5, Ok(())).unwrap();
    let key = native_key(acct(10), seller);
    assert_eq!(
        m.cancel_listing_plan(key, acct(9), acct(30)).unwrap_err(),
        ErrorCode::InvalidAccess
    );
    assert_eq!(m.cancel_listing(key, acct(9), 0, 6, Ok(())), Err(ErrorCode::InvalidAccess));
    assert!(m.store.get(key).is_some());
}

#[test]
fn cancel_returns_the_asset_under_the_derived_authority() {
    let mut m = market(250);
    let seller = acct(2);
    let mint = acct(10);
    let custody = acct(20);
    m.list_nft(seller, mint, custody, 1000, 5, Ok(())).unwrap();
    let key = native_key(mint, seller);
    let plan = m.cancel_listing_plan(key, seller, acct(30)).unwrap();
    assert_eq!(plan.listing_version, 0);
    assert_eq!(plan.return_asset.value, TransferValue::AssetUnit { asset: mint });
    assert_eq!(plan.return_asset.from, custody);
    assert_eq!(plan.return_asset.to, acct(30));
    assert_eq!(plan.return_asset.authority, TransferAuthority::Derived(key));
    assert_eq!(m.cancel_listing(key, seller, plan.listing_version, 6, Ok(())), Ok(()));
    assert!(m.store.get(key).is_none());
    assert_eq!(m.store.listing_at(0).state, ListingState::Cancelled);
}

#[test]
fn terminal_listings_refuse_every_operation() {
    let mut m = market(250);
    let seller = acct(2);
    m.list_nft(seller, acct(10), acct(20), 1000, 5, Ok(())).unwrap();
    let key = native_key(acct(10), seller);
    m.cancel_listing(key, seller, 0, 6, Ok(())).unwrap();
    // Cancelled is terminal: nothing mutates the record again.
    assert_eq!(m.update_price(key, seller, 2000, 7), Err(ErrorCode::InactiveListing));
    assert_eq!(m.cancel_listing(key, seller, 1, 7, Ok(())), Err(ErrorCode::InactiveListing));
    assert_eq!(m.cancel_listing_plan(key, seller, acct(30)).unwrap_err(), ErrorCode::InactiveListing);
    assert_eq!(m.buy_nft(key, 1000, 1, 7, Ok(())), Err(ErrorCode::InactiveListing));
    assert_eq!(
        m.buy_nft_plan(key, acct(3), acct(31), acct(32), 1000).unwrap_err(),
        ErrorCode::InactiveListing
    );
    let record = m.store.listing_at(0);
    assert_eq!(record.state, ListingState::Cancelled);
    assert_eq!(record.price, 1000);
    assert_eq!(record.updated_at, 6);
}

#[test]
fn sold_listings_are_terminal_too() {
    let mut m = market(250);
    let seller = acct(2);
    m.list_nft(seller, acct(10), acct(20), 1000, 5, Ok(())).unwrap();
    let key = native_key(acct(10), seller);
    m.buy_nft(key, 1000, 0, 6, Ok(())).unwrap();
    assert_eq!(m.buy_nft(key, 1000, 1, 7, Ok(())), Err(ErrorCode::InactiveListing));
    assert_eq!(m.update_price(key, seller, 2000, 7), Err(ErrorCode::InactiveListing));
    assert_eq!(m.cancel_listing(key, seller, 1, 7, Ok(())), Err(ErrorCode::InactiveListing));
    // The second purchase attempt settled nothing: counters grew once.
    assert_eq!(m.global_state.sale_count_native, 1);
    assert_eq!(m.global_state.sale_volume_native, 1000);
}

#[test]
fn a_failed_transfer_leg_leaves_the_purchase_without_effect() {
    let mut m = market(250);
    let seller = acct(2);
    m.list_nft(seller, acct(10), acct(20), 1000, 5, Ok(())).unwrap();
    let key = native_key(acct(10), seller);
    let r = m.buy_nft(key, 1000, 0, 6, Err(TransferError::InsufficientFunds));
    assert_eq!(r, Err(ErrorCode::TransferFailed));
    let l = m.store.get(key).unwrap();
    assert_eq!(l.state, ListingState::Active);
    assert_eq!(l.updated_at, 5);
    assert_eq!(m.global_state.sale_count_native, 0);
    assert_eq!(m.global_state.sale_volume_native, 0);
    // The unchanged listing can still be bought.
    assert!(m.buy_nft(key, 1000, 0, 7, Ok(())).is_ok());
}

#[test]
fn end_to_end_native_sale() {
    let mut m = market(250);
    let seller = acct(2);
    let buyer = acct(3);
    let mint = acct(10);
    let custody = acct(20);
    let listing_leg = m.list_nft_plan(seller, mint, acct(21), custody, 1000).unwrap();
    assert_eq!(listing_leg.value, TransferValue::AssetUnit { asset: mint });
    assert_eq!(listing_leg.from, acct(21));
    assert_eq!(listing_leg.to, custody);
    assert_eq!(listing_leg.authority, TransferAuthority::Signer(seller));
    m.list_nft(seller, mint, custody, 1000, 5, Ok(())).unwrap();
    let key = native_key(mint, seller);

    let plan = m.buy_nft_plan(key, buyer, acct(31), acct(32), 1000).unwrap();
    assert_eq!(plan.pay_seller.value, TransferValue::Native { amount: 975 });
    assert_eq!(plan.pay_seller.from, buyer);
    assert_eq!(plan.pay_seller.to, seller);
    assert_eq!(plan.pay_fee.value, TransferValue::Native { amount: 25 });
    assert_eq!(plan.pay_fee.to, acct(32));
    assert_eq!(plan.release_asset.value, TransferValue::AssetUnit { asset: mint });
    assert_eq!(plan.release_asset.from, custody);
    assert_eq!(plan.release_asset.to, acct(31));
    assert_eq!(plan.release_asset.authority, TransferAuthority::Derived(key));

    let settlement = m.buy_nft(key, 1000, plan.listing_version, 6, Ok(())).unwrap();
    assert_eq!(settlement.fee, 25);
    assert_eq!(settlement.seller_proceeds, 975);
    assert_eq!(m.store.listing_at(0).state, ListingState::Sold);
    assert_eq!(m.global_state.sale_count_native, 1);
    assert_eq!(m.global_state.sale_volume_native, 1000);
}

#[test]
fn purchase_requires_the_exact_price() {
    let mut m = market(250);
    let seller = acct(2);
    m.list_nft(seller, acct(10), acct(20), 1000, 5, Ok(())).unwrap();
    let key = native_key(acct(10), seller);
    assert_eq!(m.buy_nft(key, 999, 0, 6, Ok(())), Err(ErrorCode::IncorrectAmount));
    assert_eq!(m.buy_nft(key, 1001, 0, 6, Ok(())), Err(ErrorCode::IncorrectAmount));
    assert_eq!(
        m.buy_nft_plan(key, acct(3), acct(31), acct(32), 999).unwrap_err(),
        ErrorCode::IncorrectAmount
    );
    assert!(m.store.get(key).is_some());
}

#[test]
fn the_purchase_path_must_match_the_listing() {
    let mut m = market(250);
    let seller = acct(2);
    let trade_mint = acct(40);
    m.list_nft(seller, acct(10), acct(20), 1000, 5, Ok(())).unwrap();
    m.list_nft_in_spl(seller, acct(11), acct(21), 1000, trade_mint, acct(41), 5, Ok(())).unwrap();
    let native = native_key(acct(10), seller);
    let token = token_key(acct(11), seller);
    // Token-path purchase of a native listing, and the other way round.
    assert_eq!(
        m.buy_nft_with_spl(native, 1000, trade_mint, 0, 6, Ok(())),
        Err(ErrorCode::IncorrectPaymentMethod)
    );
    assert_eq!(m.buy_nft(token, 1000, 0, 6, Ok(())), Err(ErrorCode::IncorrectPaymentMethod));
    assert_eq!(
        m.buy_nft_plan(token, acct(3), acct(31), acct(32), 1000).unwrap_err(),
        ErrorCode::IncorrectPaymentMethod
    );
}

#[test]
fn a_mismatched_token_is_refused_before_any_transfer() {
    let mut m = market(250);
    let seller = acct(2);
    let mint_x = acct(40);
    let mint_y = acct(44);
    m.list_nft_in_spl(seller, acct(10), acct(20), 1000, mint_x, acct(41), 5, Ok(())).unwrap();
    let key = token_key(acct(10), seller);
    let plan = m.buy_nft_with_spl_plan(key, acct(3), acct(50), acct(51), acct(52), 1000, mint_y);
    assert_eq!(plan.unwrap_err(), ErrorCode::IncorrectTokenType);
    assert_eq!(
        m.buy_nft_with_spl(key, 1000, mint_y, 0, 6, Ok(())),
        Err(ErrorCode::IncorrectTokenType)
    );
    let l = m.store.get(key).unwrap();
    assert_eq!(l.state, ListingState::Active);
    assert_eq!(m.global_state.sale_count_token, 0);
}

#[test]
fn end_to_end_token_sale() {
    let mut m = market(250);
    let seller = acct(2);
    let buyer = acct(3);
    let trade_mint = acct(40);
    m.list_nft_in_spl(seller, acct(10), acct(20), 1000, trade_mint, acct(41), 5, Ok(())).unwrap();
    assert_eq!(m.global_state.listed_count_token, 1);
    let key = token_key(acct(10), seller);
    let l = m.store.get(key).unwrap();
    assert_eq!(l.payment_kind, PaymentKind::Token { mint: trade_mint });
    assert_eq!(l.payment_recipient, acct(41));

    let plan = m
        .buy_nft_with_spl_plan(key, buyer, acct(50), acct(51), acct(52), 1000, trade_mint)
        .unwrap();
    assert_eq!(plan.pay_seller.value, TransferValue::Token { mint: trade_mint, amount: 975 });
    assert_eq!(plan.pay_seller.from, acct(50));
    assert_eq!(plan.pay_seller.to, acct(41));
    assert_eq!(plan.pay_fee.value, TransferValue::Token { mint: trade_mint, amount: 25 });
    assert_eq!(plan.pay_fee.to, acct(52));
    assert_eq!(plan.release_asset.to, acct(51));
    assert_eq!(plan.release_asset.authority, TransferAuthority::Derived(key));

    let settlement = m.buy_nft_with_spl(key, 1000, trade_mint, 0, 6, Ok(())).unwrap();
    assert_eq!(settlement.fee, 25);
    assert_eq!(settlement.seller_proceeds, 975);
    assert_eq!(m.store.listing_at(0).state, ListingState::Sold);
    assert_eq!(m.global_state.sale_count_token, 1);
    assert_eq!(m.global_state.sale_volume_token, 1000);
    assert_eq!(m.global_state.sale_count_native, 0);
}

#[test]
fn a_changed_listing_is_refused_at_the_finishing_step() {
    let mut m = market(250);
    let seller = acct(2);
    m.list_nft(seller, acct(10), acct(20), 1000, 5, Ok(())).unwrap();
    let key = native_key(acct(10), seller);
    let plan = m.buy_nft_plan(key, acct(3), acct(31), acct(32), 1000).unwrap();
    // The seller re-prices the listing after the plan was made.
    m.update_price(key, seller, 2000, 6).unwrap();
    let r = m.buy_nft(key, 2000, plan.listing_version, 7, Ok(()));
    assert_eq!(r, Err(ErrorCode::ConcurrentModification));
    assert_eq!(m.store.get(key).unwrap().state, ListingState::Active);
    // Cancellation checks the version the same way.
    let stale = m.cancel_listing(key, seller, plan.listing_version, 7, Ok(()));
    assert_eq!(stale, Err(ErrorCode::ConcurrentModification));
}

#[test]
fn a_failed_listing_transfer_creates_no_listing() {
    let mut m = market(250);
    let r = m.list_nft(acct(2), acct(10), acct(20), 1000, 5, Err(TransferError::InsufficientFunds));
    assert_eq!(r, Err(ErrorCode::InsufficientFunds));
    let r2 = m.list_nft(acct(2), acct(10), acct(20), 1000, 5, Err(TransferError::InvalidAccount));
    assert_eq!(r2, Err(ErrorCode::TransferFailed));
    assert_eq!(m.store.len(), 0);
    assert_eq!(m.global_state.listed_count_native, 0);
}

#[test]
fn reclaiming_keeps_exactly_the_active_listings() {
    let mut m = market(250);
    let seller = acct(2);
    m.list_nft(seller, acct(10), acct(20), 1000, 5, Ok(())).unwrap();
    m.list_nft(seller, acct(11), acct(21), 2000, 5, Ok(())).unwrap();
    m.list_nft(seller, acct(12), acct(22), 3000, 5, Ok(())).unwrap();
    m.cancel_listing(native_key(acct(10), seller), seller, 0, 6, Ok(())).unwrap();
    m.buy_nft(native_key(acct(12), seller), 3000, 0, 6, Ok(())).unwrap();
    assert_eq!(m.store.len(), 3);
    m.reclaim();
    assert_eq!(m.store.len(), 1);
    let survivor = m.store.listing_at(0);
    assert_eq!(survivor.asset_id, acct(11));
    assert_eq!(survivor.state, ListingState::Active);
    // Lookups and counters are unaffected by reclamation.
    assert!(m.store.get(native_key(acct(11), seller)).is_some());
    assert!(m.store.get(native_key(acct(10), seller)).is_none());
    assert_eq!(m.global_state.sale_count_native, 1);
    assert_eq!(m.global_state.sale_volume_native, 3000);
}

#[test]
fn a_failed_return_transfer_leaves_the_listing_active() {
    let mut m = market(250);
    let seller = acct(2);
    m.list_nft(seller, acct(10), acct(20), 1000, 5, Ok(())).unwrap();
    let key = native_key(acct(10), seller);
    let r = m.cancel_listing(key, seller, 0, 6, Err(TransferError::Unauthorized));
    assert_eq!(r, Err(ErrorCode::TransferFailed));
    assert_eq!(m.store.get(key).unwrap().state, ListingState::Active);
}
