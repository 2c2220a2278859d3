use neurowealth_vault::{LimitedVault, VaultError};

const AGENT: u64 = 1;
const USDC_TOKEN: u64 = 2;
const USER: u64 = 3;

fn setup_vault() -> LimitedVault<u64> {
    LimitedVault::initialize(AGENT, USDC_TOKEN)
}

fn or_panic<T>(r: Result<T, VaultError>) -> T {
    match r {
        Ok(v) => v,
        Err(e) => panic!("{}", e.message()),
    }
}

#[test]
fn test_get_min_deposit_default() {
    let vault = setup_vault();
    let min_deposit = vault.get_min_deposit();
    assert_eq!(min_deposit, 1_000_000_i128);
}

#[test]
fn test_get_max_deposit_default() {
    let vault = setup_vault();
    let max_deposit = vault.get_max_deposit();
    assert_eq!(max_deposit, 10_000_000_000_i128);
}

#[test]
fn test_set_deposit_limits_success() {
    let mut vault = setup_vault();
    let new_min = 2_000_000_i128;
    let new_max = 20_000_000_000_i128;
    or_panic(vault.set_deposit_limits(true, new_min, new_max));
    assert_eq!(vault.get_min_deposit(), new_min);
    assert_eq!(vault.get_max_deposit(), new_max);
}

#[test]
#[should_panic(expected = "Minimum deposit must be at least 1 USDC")]
fn test_set_deposit_limits_min_too_low() {
    let mut vault = setup_vault();
    let min = 999_999_i128;
    let max = 10_000_000_000_i128;
    or_panic(vault.set_deposit_limits(true, min, max));
}

#[test]
#[should_panic(expected = "Maximum deposit must be greater than or equal to minimum")]
fn test_set_deposit_limits_max_less_than_min() {
    let mut vault = setup_vault();
    let min = 5_000_000_i128;
    let max = 4_000_000_i128;
    or_panic(vault.set_deposit_limits(true, min, max));
}

#[test]
#[should_panic(expected = "Below minimum deposit")]
fn test_deposit_below_minimum() {
    let mut vault = setup_vault();
    let min = 5_000_000_i128;
    let max = 20_000_000_000_i128;
    or_panic(vault.set_deposit_limits(true, min, max));
    let amount = 4_000_000_i128;
    or_panic(vault.deposit(USER, amount));
}

#[test]
#[should_panic(expected = "Exceeds maximum deposit")]
fn test_deposit_above_maximum() {
    let mut vault = setup_vault();
    let min = 1_000_000_i128;
    let max = 5_000_000_i128;
    or_panic(vault.set_deposit_limits(true, min, max));
    let amount = 6_000_000_i128;
    or_panic(vault.deposit(USER, amount));
}

#[test]
fn test_deposit_at_minimum_succeeds() {
    let mut vault = setup_vault();
    let min = 5_000_000_i128;
    let max = 20_000_000_000_i128;
    or_panic(vault.set_deposit_limits(true, min, max));
    let amount = 5_000_000_i128;
    assert_eq!(vault.get_min_deposit(), min);
    assert!(amount >= min);
    let transfer = or_panic(vault.deposit(USER, amount));
    assert_eq!(transfer.from, USER);
    assert_eq!(transfer.amount, amount);
}

#[test]
fn test_deposit_at_maximum_succeeds() {
    let mut vault = setup_vault();
    let min = 1_000_000_i128;
    let max = 5_000_000_i128;
    or_panic(vault.set_deposit_limits(true, min, max));
    let amount = 5_000_000_i128;
    assert_eq!(vault.get_max_deposit(), max);
    assert!(amount <= max);
    let transfer = or_panic(vault.deposit(USER, amount));
    assert_eq!(transfer.amount, amount);
}

#[test]
#[should_panic(expected = "Below minimum deposit")]
fn test_deposit_one_stroop_below_minimum() {
    let vault = setup_vault();
    let amount = 999_999_i128;
    or_panic(vault.deposit(USER, amount));
}

#[test]
#[should_panic(expected = "Exceeds maximum deposit")]
fn test_deposit_one_stroop_above_maximum() {
    let mut vault = setup_vault();
    let min = 1_000_000_i128;
    let max = 10_000_000_i128;
    or_panic(vault.set_deposit_limits(true, min, max));
    let amount = 10_000_001_i128;
    or_panic(vault.deposit(USER, amount));
}

#[test]
fn test_owner_updates_limits_immediate_effect() {
    let mut vault = setup_vault();

    assert_eq!(vault.get_min_deposit(), 1_000_000_i128);
    assert_eq!(vault.get_max_deposit(), 10_000_000_000_i128);

    let new_min = 3_000_000_i128;
    let new_max = 15_000_000_000_i128;
    or_panic(vault.set_deposit_limits(true, new_min, new_max));

    assert_eq!(vault.get_min_deposit(), new_min);
    assert_eq!(vault.get_max_deposit(), new_max);

    let below_min = 2_000_000_i128;
    assert!(below_min < new_min);
    assert_eq!(vault.deposit(USER, below_min), Err(VaultError::BelowMinimumDeposit));

    let above_max = 20_000_000_000_i128;
    assert!(above_max > new_max);
    assert_eq!(vault.deposit(USER, above_max), Err(VaultError::ExceedsMaximumDeposit));

    let within_range = 5_000_000_i128;
    assert!(within_range >= new_min && within_range <= new_max);
    assert!(vault.deposit(USER, within_range).is_ok());
}
