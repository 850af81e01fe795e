//! Contract configuration: validation, administrator checks and updates.
use vstd::prelude::*;

use crate::account::AccountId;

verus! {

/// Tunable parameters of the contract.
#[derive(Clone, Copy, Debug, PartialEq, Eq, Structural)]
pub struct Config {
    pub high_rep_threshold: u32,
    pub bonus_bps: u32,
    pub min_discount_rate_bps: u32,
    /// Basis points of the score removed per decay period (50 = 0.5%).
    pub decay_rate_bps: u32,
    /// Number of ledgers between two decay applications.
    pub decay_period_ledgers: u64,
}

/// Keys of the instance storage entries that hold the configuration.
#[derive(Clone, Copy, Debug, PartialEq, Eq, Structural)]
pub enum ConfigKey {
    Config,
    Admin,
}

/// Why a configuration request was refused.
#[derive(Clone, Copy, Debug, PartialEq, Eq, Structural)]
pub enum ConfigError {
    Unauthorized,
    InvalidBonusBps,
    InvalidMinDiscountRate,
}

/// The largest bonus, in basis points, that a configuration may grant.
pub const MAX_BONUS_BPS: u32 = 500;

/// The error that `set_config` gives for `config`, if any.
pub open spec fn config_error(config: Config) -> Option<ConfigError> {
    if config.bonus_bps > MAX_BONUS_BPS {
        Some(ConfigError::InvalidBonusBps)
    } else if config.min_discount_rate_bps == 0 {
        Some(ConfigError::InvalidMinDiscountRate)
    } else {
        None
    }
}

/// What reading the configuration entry `stored` gives.
pub open spec fn config_lookup(stored: Option<Config>) -> Result<Config, ConfigError> {
    match stored {
        Some(c) => Ok(c),
        None => Err(ConfigError::Unauthorized),
    }
}

/// The configuration entry after `set_config(config)` on an entry holding
/// `stored`: the new configuration when it is valid, else unchanged.
pub open spec fn config_after_set(stored: Option<Config>, config: Config) -> Option<Config> {
    match config_error(config) {
        Some(_) => stored,
        None => Some(config),
    }
}

/// What `set_config(config)` returns.
pub open spec fn set_config_result(config: Config) -> Result<(), ConfigError> {
    match config_error(config) {
        Some(e) => Err(e),
        None => Ok(()),
    }
}

/// The administrator held in `stored`, or `Unauthorized` when none is set.
pub fn get_admin(stored: Option<AccountId>) -> (admin: Result<AccountId, ConfigError>)
    ensures
        match stored {
            Some(a) => admin == Ok::<AccountId, ConfigError>(a),
            None => admin == Err::<AccountId, ConfigError>(ConfigError::Unauthorized),
        },
{
    match stored {
        Some(a) => Ok(a),
        None => Err(ConfigError::Unauthorized),
    }
}

/// The configuration held in `stored`, or `Unauthorized` when none is set.
pub fn get_config(stored: Option<Config>) -> (config: Result<Config, ConfigError>)
    ensures
        config == config_lookup(stored),
{
    match stored {
        Some(c) => Ok(c),
        None => Err(ConfigError::Unauthorized),
    }
}

/// Validates `config` and, when it is valid, stores it in `slot`.
/// A refused configuration leaves `slot` as it was.
pub fn set_config(slot: &mut Option<Config>, config: &Config) -> (result: Result<(), ConfigError>)
    ensures
        result == set_config_result(*config),
        *final(slot) == config_after_set(*old(slot), *config),
{
    if config.bonus_bps > MAX_BONUS_BPS {
        return Err(ConfigError::InvalidBonusBps);
    }
    if config.min_discount_rate_bps == 0 {
        return Err(ConfigError::InvalidMinDiscountRate);
    }
    *slot = Some(*config);
    Ok(())
}

/// Replaces the configuration on behalf of `caller`.
///
/// `admin` is the stored administrator. The request is refused with
/// `Unauthorized` when no administrator is set or `caller` is not that
/// administrator; otherwise the new configuration is validated and stored as
/// `set_config` does. Only an accepted request changes `config_slot`.
pub fn update_config(
    admin: &Option<AccountId>,
    caller: &AccountId,
    config_slot: &mut Option<Config>,
    high_rep_threshold: u32,
    bonus_bps: u32,
    min_discount_rate_bps: u32,
    decay_rate_bps: u32,
    decay_period_ledgers: u64,
) -> (result: Result<(), ConfigError>)
    ensures
        ({
            let config = Config {
                high_rep_threshold,
                bonus_bps,
                min_discount_rate_bps,
                decay_rate_bps,
                decay_period_ledgers,
            };
            match *admin {
                Some(a) if a@ == caller@ => {
                    &&& result == set_config_result(config)
                    &&& *final(config_slot) == config_after_set(*old(config_slot), config)
                },
                _ => {
                    &&& result == Err::<(), ConfigError>(ConfigError::Unauthorized)
                    &&& *final(config_slot) == *old(config_slot)
                },
            }
        }),
{
    let stored_admin = match admin {
        Some(a) => a,
        None => return Err(ConfigError::Unauthorized),
    };
    if !caller.same_as(stored_admin) {
        return Err(ConfigError::Unauthorized);
    }
    let new_config = Config {
        high_rep_threshold,
        bonus_bps,
        min_discount_rate_bps,
        decay_rate_bps,
        decay_period_ledgers,
    };
    set_config(config_slot, &new_config)
}

/// A configuration is refused only for a bonus above 500 basis points
/// (`InvalidBonusBps`) or, failing that, a zero minimum discount rate
/// (`InvalidMinDiscountRate`); every other configuration is accepted and
/// stored, whatever its threshold and decay fields.
pub proof fn lemma_which_configs_are_refused(stored: Option<Config>, config: Config)
    ensures
        MAX_BONUS_BPS == 500,
        config_error(config) is None <==> (config.bonus_bps <= 500
            && config.min_discount_rate_bps != 0),
        config_error(config) == Some(ConfigError::InvalidBonusBps) <==> config.bonus_bps > 500,
        config_error(config) == Some(ConfigError::InvalidMinDiscountRate) <==> (config.bonus_bps
            <= 500 && config.min_discount_rate_bps == 0),
        set_config_result(config) is Ok <==> (config.bonus_bps <= 500
            && config.min_discount_rate_bps != 0),
        (config.bonus_bps <= 500 && config.min_discount_rate_bps != 0) ==> config_after_set(
            stored,
            config,
        ) == Some(config),
        !(config.bonus_bps <= 500 && config.min_discount_rate_bps != 0) ==> config_after_set(
            stored,
            config,
        ) == stored,
{
}

/// A configuration that `set_config` accepts is what reading the entry then
/// gives back; one that it refuses leaves the entry, and so every later read,
/// as it was.
pub proof fn lemma_config_read_after_write(stored: Option<Config>, config: Config)
    ensures
        set_config_result(config) is Ok ==> config_lookup(config_after_set(stored, config)) == Ok::<
            Config,
            ConfigError,
        >(config),
        set_config_result(config) is Err ==> config_lookup(config_after_set(stored, config))
            == config_lookup(stored),
{
}

} // verus!
