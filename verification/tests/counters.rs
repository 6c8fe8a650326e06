use nft_marketplace::listing::bump_u64;
use nft_marketplace::registry::{bump_u32, saturating_widen_add};

#[test]
fn counter_bumps_stop_at_the_ceiling() {
    assert_eq!(bump_u64(0), 1);
    assert_eq!(bump_u64(41), 42);
    assert_eq!(bump_u64(u64::MAX), u64::MAX);
    assert_eq!(bump_u32(7), 8);
    assert_eq!(bump_u32(u32::MAX), u32::MAX);
}

#[test]
fn volume_additions_stop_at_the_ceiling() {
    assert_eq!(saturating_widen_add(10, 5), 15);
    assert_eq!(saturating_widen_add(0, u64::MAX), u64::MAX as u128);
    assert_eq!(saturating_widen_add(u128::MAX - 3, 5), u128::MAX);
    assert_eq!(saturating_widen_add(u128::MAX, 0), u128::MAX);
}
