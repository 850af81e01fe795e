use invoice_liquidity::account::AccountId;
use invoice_liquidity::config::{
    get_admin, get_config, set_config, update_config, Config, ConfigError, MAX_BONUS_BPS,
};

fn config(bonus_bps: u32, min_discount_rate_bps: u32) -> Config {
    Config {
        high_rep_threshold: 80,
        bonus_bps,
        min_discount_rate_bps,
        decay_rate_bps: 50,
        decay_period_ledgers: 17_280,
    }
}

fn account(s: &str) -> AccountId {
    AccountId::new(s.to_string())
}

#[test]
fn missing_admin_or_config_is_unauthorized() {
    assert_eq!(get_admin(None), Err(ConfigError::Unauthorized));
    assert_eq!(get_config(None), Err(ConfigError::Unauthorized));
    assert_eq!(get_admin(Some(account("GADMIN"))), Ok(account("GADMIN")));
    assert_eq!(get_config(Some(config(1, 1))), Ok(config(1, 1)));
}

#[test]
fn set_config_accepts_the_largest_bonus() {
    let mut slot = None;
    assert_eq!(set_config(&mut slot, &config(MAX_BONUS_BPS, 1)), Ok(()));
    assert_eq!(get_config(slot), Ok(config(500, 1)));
}

#[test]
fn set_config_rejects_bonus_above_limit() {
    let mut slot = Some(config(10, 10));
    assert_eq!(set_config(&mut slot, &config(501, 10)), Err(ConfigError::InvalidBonusBps));
    assert_eq!(slot, Some(config(10, 10)));
}

#[test]
fn set_config_rejects_zero_min_discount() {
    let mut slot = None;
    assert_eq!(set_config(&mut slot, &config(10, 0)), Err(ConfigError::InvalidMinDiscountRate));
    assert_eq!(slot, None);
}

#[test]
fn bonus_is_checked_before_min_discount() {
    let mut slot = None;
    assert_eq!(set_config(&mut slot, &config(600, 0)), Err(ConfigError::InvalidBonusBps));
}

#[test]
fn update_config_without_admin_is_unauthorized() {
    let mut slot = None;
    let r = update_config(&None, &account("GCALLER"), &mut slot, 1, 2, 3, 4, 5);
    assert_eq!(r, Err(ConfigError::Unauthorized));
    assert_eq!(slot, None);
}

#[test]
fn update_config_by_other_caller_is_unauthorized() {
    let mut slot = Some(config(10, 10));
    let r = update_config(&Some(account("GADMIN")), &account("GOTHER"), &mut slot, 1, 2, 3, 4, 5);
    assert_eq!(r, Err(ConfigError::Unauthorized));
    assert_eq!(slot, Some(config(10, 10)));
}

#[test]
fn update_config_by_admin_replaces_config() {
    let mut slot = Some(config(10, 10));
    let r = update_config(&Some(account("GADMIN")), &account("GADMIN"), &mut slot, 90, 250, 30, 40, 1_000);
    assert_eq!(r, Ok(()));
    assert_eq!(
        slot,
        Some(Config {
            high_rep_threshold: 90,
            bonus_bps: 250,
            min_discount_rate_bps: 30,
            decay_rate_bps: 40,
            decay_period_ledgers: 1_000,
        })
    );
}

#[test]
fn update_config_by_admin_still_validates() {
    let mut slot = Some(config(10, 10));
    let r = update_config(&Some(account("GADMIN")), &account("GADMIN"), &mut slot, 90, 501, 30, 40, 1_000);
    assert_eq!(r, Err(ConfigError::InvalidBonusBps));
    let r = update_config(&Some(account("GADMIN")), &account("GADMIN"), &mut slot, 90, 5, 0, 40, 1_000);
    assert_eq!(r, Err(ConfigError::InvalidMinDiscountRate));
    assert_eq!(slot, Some(config(10, 10)));
}
