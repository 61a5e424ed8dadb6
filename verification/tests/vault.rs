//! End-to-end tests of the vault accounting engine, run against the real
//! 256-bit arithmetic backend.

use zenlink_vault_assets::metadata::MetadataRegistry;
use zenlink_vault_assets::primitives::{
    balance_mul_div, balance_mul_div_up, Balance, Metadata, VaultAssetGenerator,
};
use zenlink_vault_assets::vault_asset::{Vault, VaultAsset, VaultError};

const MAX: Balance = u128::MAX;

#[test]
fn mul_div_floors_exactly() {
    assert_eq!(balance_mul_div(6, 7, 2), Some(21));
    assert_eq!(balance_mul_div(10, 10, 3), Some(33));
    assert_eq!(balance_mul_div(0, MAX, 5), Some(0));
    assert_eq!(balance_mul_div(1, 1, MAX), Some(0));
}

#[test]
fn mul_div_uses_wide_intermediate() {
    // The product is far beyond 128 bits; only the quotient fits.
    assert_eq!(balance_mul_div(MAX, MAX, MAX), Some(MAX));
    assert_eq!(balance_mul_div(MAX, 1_000_000, 2_000_000), Some(MAX / 2));
}

#[test]
fn mul_div_rejects_overflow() {
    assert_eq!(balance_mul_div(MAX, MAX, 1), None);
    assert_eq!(balance_mul_div(MAX, 2, 1), None);
    assert_eq!(balance_mul_div_up(MAX, MAX, 1), None);
}

#[test]
fn mul_div_rejects_zero_divisor() {
    assert_eq!(balance_mul_div(0, 0, 0), None);
    assert_eq!(balance_mul_div(1, 1, 0), None);
    assert_eq!(balance_mul_div(MAX, MAX, 0), None);
    assert_eq!(balance_mul_div_up(0, 0, 0), None);
    assert_eq!(balance_mul_div_up(MAX, 1, 0), None);
}

#[test]
fn mul_div_up_rounds_away_from_zero() {
    assert_eq!(balance_mul_div_up(10, 10, 3), Some(34));
    assert_eq!(balance_mul_div_up(10, 10, 4), Some(25));
    assert_eq!(balance_mul_div_up(1, 1, MAX), Some(1));
    assert_eq!(balance_mul_div_up(0, 7, 3), Some(0));
    assert_eq!(balance_mul_div_up(MAX, MAX, MAX), Some(MAX));
}

#[test]
fn bootstrap_deposit_is_one_to_one() {
    let mut v = Vault::new(1, 2);
    assert_eq!(v.deposit(1000), Ok(1000));
    assert_eq!(v.total_assets(), 1000);
    assert_eq!(v.total_shares(), 1000);
}

#[test]
fn seeded_vault_example_scenario() {
    // 2 assets : 1 share.
    let v = Vault::from_totals(1, 2, 1_000_000, 500_000);
    assert_eq!(v.preview_deposit(200), Ok(100));
    assert_eq!(v.preview_withdraw(100), Ok(50));
    // A remainder rounds the burned shares up.
    assert_eq!(v.preview_withdraw(101), Ok(51));
}

#[test]
fn preview_matches_lifecycle_operation() {
    let mut v = Vault::from_totals(1, 2, 1_000_000, 500_000);
    let previewed = v.preview_deposit(333).unwrap();
    assert_eq!(v.deposit(333), Ok(previewed));

    let mut v = Vault::from_totals(1, 2, 1_000_000, 500_000);
    let previewed = v.preview_mint(333).unwrap();
    assert_eq!(v.mint(333), Ok(previewed));

    let mut v = Vault::from_totals(1, 2, 1_000_000, 500_000);
    let previewed = v.preview_withdraw(333).unwrap();
    assert_eq!(v.withdraw(333), Ok(previewed));

    let mut v = Vault::from_totals(1, 2, 1_000_000, 500_000);
    let previewed = v.preview_redeem(333).unwrap();
    assert_eq!(v.redeem(333), Ok(previewed));
}

#[test]
fn deposit_updates_totals() {
    let mut v = Vault::from_totals(1, 2, 1_000_000, 500_000);
    assert_eq!(v.deposit(200), Ok(100));
    assert_eq!(v.total_assets(), 1_000_200);
    assert_eq!(v.total_shares(), 500_100);
}

#[test]
fn mint_charges_rounded_up_assets() {
    let mut v = Vault::from_totals(1, 2, 1_000_000, 500_000);
    assert_eq!(v.preview_mint(100), Ok(200));
    assert_eq!(v.mint(100), Ok(200));
    assert_eq!(v.total_assets(), 1_000_200);
    assert_eq!(v.total_shares(), 500_100);

    // 3 assets : 2 shares; minting one share costs two assets, not one.
    let mut v = Vault::from_totals(1, 2, 3, 2);
    assert_eq!(v.mint(1), Ok(2));
}

#[test]
fn withdraw_burns_rounded_up_shares() {
    let mut v = Vault::from_totals(1, 2, 1_000_000, 500_000);
    assert_eq!(v.withdraw(101), Ok(51));
    assert_eq!(v.total_assets(), 999_899);
    assert_eq!(v.total_shares(), 499_949);
}

#[test]
fn redeem_pays_floored_assets() {
    let mut v = Vault::from_totals(1, 2, 1_000_000, 500_000);
    assert_eq!(v.redeem(100), Ok(200));
    assert_eq!(v.total_assets(), 999_800);
    assert_eq!(v.total_shares(), 499_900);

    // 3 assets : 2 shares; redeeming one share pays one asset, not two.
    let mut v = Vault::from_totals(1, 2, 3, 2);
    assert_eq!(v.redeem(1), Ok(1));
}

#[test]
fn round_trip_never_manufactures_value() {
    let v = Vault::from_totals(1, 2, 1_000_000, 500_000);
    let shares = v.convert_to_shares(333).unwrap();
    assert_eq!(shares, 166);
    let back = v.convert_to_assets(shares).unwrap();
    assert_eq!(back, 332);
    assert!(back <= 333);
}

#[test]
fn conversion_failure_aborts_without_mutation() {
    // Seeded with shares but no assets: the ratio cannot be computed.
    let mut v = Vault::from_totals(1, 2, 0, 5);
    assert_eq!(v.convert_to_shares(1), Err(VaultError::ArithmeticFailure));
    assert_eq!(v.deposit(1), Err(VaultError::ArithmeticFailure));
    assert_eq!(v.withdraw(1), Err(VaultError::ArithmeticFailure));
    assert_eq!(v.total_assets(), 0);
    assert_eq!(v.total_shares(), 5);
}

#[test]
fn overflowing_deposit_is_rejected_atomically() {
    let mut v = Vault::from_totals(1, 2, MAX, MAX);
    assert_eq!(v.deposit(1), Err(VaultError::ArithmeticFailure));
    assert_eq!(v.total_assets(), MAX);
    assert_eq!(v.total_shares(), MAX);
}

#[test]
fn overdrawn_withdraw_and_redeem_are_rejected() {
    let mut v = Vault::from_totals(1, 2, 100, 100);
    assert_eq!(v.withdraw(200), Err(VaultError::InsufficientBalance));
    assert_eq!(v.redeem(200), Err(VaultError::InsufficientBalance));
    assert_eq!(v.total_assets(), 100);
    assert_eq!(v.total_shares(), 100);
}

fn assert_no_loss(v: &Vault) {
    let claim = v.convert_to_assets(v.total_shares()).unwrap();
    assert!(claim <= v.total_assets());
}

#[test]
fn no_loss_across_operation_sequence() {
    let mut v = Vault::new(1, 2);
    assert_no_loss(&v);
    v.deposit(1000).unwrap();
    assert_no_loss(&v);
    v.deposit(333).unwrap();
    assert_no_loss(&v);
    v.withdraw(100).unwrap();
    assert_no_loss(&v);
    v.mint(50).unwrap();
    assert_no_loss(&v);
    v.redeem(77).unwrap();
    assert_no_loss(&v);
    v.withdraw(1).unwrap();
    assert_no_loss(&v);
}

#[test]
fn bound_queries_report_ceilings() {
    let v = Vault::from_totals(1, 2, 1_000_000, 500_000);
    assert_eq!(v.max_deposit(), MAX - 1_000_000);
    assert_eq!(v.max_mint(), MAX - 500_000);
    assert_eq!(v.max_withdraw(100), Ok(200));
    assert_eq!(v.max_redeem(42), 42);
}

#[test]
fn vault_reports_its_asset_ids() {
    let v = Vault::new(7, 8);
    assert_eq!(v.asset(), 7);
    assert_eq!(v.share_asset(), 8);
}

#[test]
fn metadata_default_is_zeroed() {
    let m = Metadata::default();
    assert_eq!(m.decimal, 0);
    assert_eq!(m.max_penalty_ratio, 0);
    assert_eq!(m.min_penalty_ratio, 0);
}

#[test]
fn registry_rejects_unordered_penalty_bounds() {
    let mut reg = MetadataRegistry::new();
    let good = Metadata { decimal: 12, max_penalty_ratio: 300, min_penalty_ratio: 100 };
    assert_eq!(reg.set(1, good), Ok(()));
    let bad = Metadata { decimal: 12, max_penalty_ratio: 100, min_penalty_ratio: 300 };
    assert_eq!(reg.set(1, bad), Err(VaultError::InvalidMetadata));
    // The prior record is untouched.
    assert_eq!(reg.get(1), Ok(good));
}

#[test]
fn registry_distinguishes_unknown_assets() {
    let mut reg = MetadataRegistry::new();
    assert_eq!(reg.get(9), Err(VaultError::UnknownAsset));
    let m = Metadata { decimal: 6, max_penalty_ratio: 10, min_penalty_ratio: 10 };
    reg.set(9, m).unwrap();
    assert_eq!(reg.get(9), Ok(m));
    assert_eq!(reg.get(10), Err(VaultError::UnknownAsset));
}

struct DoublingGenerator;

impl VaultAssetGenerator<u64> for DoublingGenerator {
    fn generate(asset: u64) -> u64 {
        asset * 2 + 1
    }
}

#[test]
fn generator_pairs_share_asset_ids() {
    let share_id = DoublingGenerator::generate(21);
    let v = Vault::new(21, share_id);
    assert_eq!(v.share_asset(), 43);
}
