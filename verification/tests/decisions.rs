use fungible_token::burn::{plan_burn, BurnError, BurnPlan, ONE_YOCTO};
use fungible_token::init::{plan_new, InitPlan};
use fungible_token::hook::storage_delta;
use fungible_token::mint::{plan_mint, MintError, MintPlan};
use fungible_token::storage::{
    account_storage_bounds, stored_total, StorageBalance, StorageBalanceBounds,
    STORAGE_BYTES_PER_ACCOUNT,
};

const ONE_NEAR: u128 = 1_000_000_000_000_000_000_000_000;
const BYTE_COST: u128 = 10_000_000_000_000_000_000;
const REGISTRATION: u128 = 2_500_000_000_000_000_000_000;

#[test]
fn registration_deposit_is_250_bytes_of_storage() {
    assert_eq!(STORAGE_BYTES_PER_ACCOUNT, 250);
    let bounds = account_storage_bounds();
    assert_eq!(bounds.min, STORAGE_BYTES_PER_ACCOUNT * BYTE_COST);
    assert_eq!(bounds.min, REGISTRATION);
    assert_eq!(bounds.max, Some(REGISTRATION));
}

#[test]
fn new_sets_bounds_and_credits_owner() {
    let plan = plan_new(1_000);
    assert_eq!(
        plan,
        InitPlan {
            storage_bounds: StorageBalanceBounds { min: REGISTRATION, max: Some(REGISTRATION) },
            initial_supply: 1_000,
        }
    );
    assert_eq!(plan_new(0).initial_supply, 0);
}

#[test]
fn unregistered_caller_has_zero_storage() {
    assert_eq!(stored_total(&None), 0);
    let balance = Some(StorageBalance { total: 42, available: 7 });
    assert_eq!(stored_total(&balance), 42);
}

#[test]
fn first_mint_registers_and_mints_remainder() {
    let bounds = plan_new(0).storage_bounds;
    let deposit = 3 * ONE_NEAR;
    let plan = plan_mint(deposit, &bounds, &None);
    assert_eq!(plan, Ok(MintPlan { register_storage: true, amount: deposit - REGISTRATION }));
}

#[test]
fn first_mint_below_registration_deposit_is_refused() {
    let bounds = plan_new(0).storage_bounds;
    let plan = plan_mint(REGISTRATION - 1, &bounds, &None);
    assert_eq!(
        plan,
        Err(MintError::StorageDepositBelowMinimum {
            attached: REGISTRATION - 1,
            minimum: REGISTRATION,
        })
    );
    assert!(plan_mint(0, &bounds, &None).is_err());
}

#[test]
fn mint_of_exact_registration_deposit_mints_nothing() {
    let bounds = plan_new(0).storage_bounds;
    let plan = plan_mint(REGISTRATION, &bounds, &None);
    assert_eq!(plan, Ok(MintPlan { register_storage: true, amount: 0 }));
}

#[test]
fn registered_caller_mints_full_deposit() {
    let bounds = plan_new(0).storage_bounds;
    let balance = Some(StorageBalance { total: REGISTRATION, available: REGISTRATION });
    let plan = plan_mint(2 * ONE_NEAR, &bounds, &balance);
    assert_eq!(plan, Ok(MintPlan { register_storage: false, amount: 2 * ONE_NEAR }));
    assert_eq!(plan_mint(0, &bounds, &balance), Ok(MintPlan { register_storage: false, amount: 0 }));
}

#[test]
fn storage_delta_counts_added_bytes() {
    assert_eq!(storage_delta(100, 164), 64);
    assert_eq!(storage_delta(7, 7), 0);
}

#[test]
fn burn_with_one_yocto_refunds_amount() {
    assert_eq!(ONE_YOCTO, 1);
    let outcome = plan_burn(1, ONE_NEAR);
    assert_eq!(outcome, Ok(BurnPlan { burn_amount: ONE_NEAR, refund: ONE_NEAR }));
}

#[test]
fn burn_without_deposit_is_refused() {
    assert_eq!(
        plan_burn(0, ONE_NEAR),
        Err(BurnError::RequiresOneYocto { attached: 0 })
    );
}

#[test]
fn burn_with_too_much_deposit_is_refused() {
    assert_eq!(plan_burn(2, 5), Err(BurnError::RequiresOneYocto { attached: 2 }));
}

#[test]
fn mint_then_burn_refunds_deposit() {
    let bounds = plan_new(0).storage_bounds;
    let balance = Some(StorageBalance { total: REGISTRATION, available: REGISTRATION });
    let deposit = 5 * ONE_NEAR;
    let minted = plan_mint(deposit, &bounds, &balance).unwrap().amount;
    let refund = plan_burn(ONE_YOCTO, minted).unwrap().refund;
    assert_eq!(refund, deposit);
}

#[test]
fn registration_happens_once() {
    let bounds = plan_new(7).storage_bounds;
    let first = plan_mint(ONE_NEAR, &bounds, &None).unwrap();
    assert!(first.register_storage);
    let after = Some(StorageBalance { total: bounds.min, available: bounds.min });
    let second = plan_mint(ONE_NEAR, &bounds, &after);
    assert_eq!(second, Ok(MintPlan { register_storage: false, amount: ONE_NEAR }));
}
