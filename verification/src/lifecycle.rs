use vstd::prelude::*;

use crate::errors::FlywheelError;
use crate::events::{ConfigInitialized, ConfigUpdated};
use crate::state::{bps_weights_valid, AccountId, FlywheelConfig};

verus! {

/// A patched field: the update's value where one was given, the current
/// value otherwise.
pub open spec fn patched<T>(current: T, update: Option<T>) -> T {
    match update {
        Some(v) => v,
        None => current,
    }
}

/// Creates the configuration record. Rejects weights whose buyback and burn
/// parts exceed the whole with `InvalidBpsSum`; otherwise the liquidity-add
/// weight is derived as the rest, every counter and `last_execution` start
/// at zero, and the created-record notification payload is returned beside
/// the record.
pub fn initialize_config(
    admin: AccountId,
    token_mint: AccountId,
    fee_vault: AccountId,
    buyback_bps: u16,
    burn_bps: u16,
    epoch_start: u64,
    epoch_end: u64,
    min_interval_seconds: u64,
    treasury_wallet: Option<AccountId>,
    config_bump: u8,
    now: u64,
) -> (r: Result<(FlywheelConfig, ConfigInitialized), FlywheelError>)
    ensures
        r is Ok <==> buyback_bps + burn_bps <= 10000,
        r is Err ==> r == Err::<(FlywheelConfig, ConfigInitialized), FlywheelError>(
            FlywheelError::InvalidBpsSum,
        ),
        r matches Ok((cfg, ev)) ==> cfg == (FlywheelConfig {
            admin,
            token_mint,
            fee_vault,
            buyback_bps,
            burn_bps,
            lp_add_bps: (10000 - buyback_bps - burn_bps) as u16,
            epoch_start,
            epoch_end,
            min_interval_seconds,
            last_execution: 0u64,
            treasury_wallet,
            total_fees_collected: 0u64,
            total_bought_back: 0u64,
            total_burned: 0u64,
            total_lp_added: 0u64,
            config_bump,
        }) && bps_weights_valid(cfg) && ev == (ConfigInitialized {
            admin,
            token_mint,
            fee_vault,
            buyback_bps,
            burn_bps,
            epoch_start,
            epoch_end,
            timestamp: now,
        }),
{
    if (buyback_bps as u32) + (burn_bps as u32) > 10000 {
        return Err(FlywheelError::InvalidBpsSum);
    }
    let lp_add_bps: u16 = 10000 - buyback_bps - burn_bps;
    let cfg = FlywheelConfig {
        admin,
        token_mint,
        fee_vault,
        buyback_bps,
        burn_bps,
        lp_add_bps,
        epoch_start,
        epoch_end,
        min_interval_seconds,
        last_execution: 0,
        treasury_wallet,
        total_fees_collected: 0,
        total_bought_back: 0,
        total_burned: 0,
        total_lp_added: 0,
        config_bump,
    };
    let ev = ConfigInitialized {
        admin,
        token_mint,
        fee_vault,
        buyback_bps,
        burn_bps,
        epoch_start,
        epoch_end,
        timestamp: now,
    };
    Ok((cfg, ev))
}

/// Patches the record: each of the four fields is applied only where given.
/// Admin-only; a caller other than the record's admin is refused
/// `Unauthorized`. After applying the weight fields the buyback-plus-burn
/// bound is re-validated — `InvalidBpsSum` on failure — and the
/// liquidity-add weight is recomputed as the rest. A given treasury wallet
/// replaces the stored one; none can be removed this way. The epoch window,
/// the counters and `last_execution` are untouchable through this path, and
/// a refused update leaves the record exactly as it was.
pub fn update_config(
    cfg: &mut FlywheelConfig,
    caller: AccountId,
    buyback_bps: Option<u16>,
    burn_bps: Option<u16>,
    min_interval_seconds: Option<u64>,
    treasury_wallet: Option<AccountId>,
    now: u64,
) -> (r: Result<ConfigUpdated, FlywheelError>)
    ensures
        r == (if caller != old(cfg).admin {
            Err::<ConfigUpdated, FlywheelError>(FlywheelError::Unauthorized)
        } else if patched(old(cfg).buyback_bps, buyback_bps) + patched(
            old(cfg).burn_bps,
            burn_bps,
        ) > 10000 {
            Err::<ConfigUpdated, FlywheelError>(FlywheelError::InvalidBpsSum)
        } else {
            Ok::<ConfigUpdated, FlywheelError>(
                ConfigUpdated { buyback_bps, burn_bps, min_interval_seconds, timestamp: now },
            )
        }),
        r is Err ==> *final(cfg) == *old(cfg),
        r is Ok ==> *final(cfg) == (FlywheelConfig {
            buyback_bps: patched(old(cfg).buyback_bps, buyback_bps),
            burn_bps: patched(old(cfg).burn_bps, burn_bps),
            lp_add_bps: (10000 - patched(old(cfg).buyback_bps, buyback_bps) - patched(
                old(cfg).burn_bps,
                burn_bps,
            )) as u16,
            min_interval_seconds: patched(old(cfg).min_interval_seconds, min_interval_seconds),
            treasury_wallet: (if treasury_wallet is Some {
                treasury_wallet
            } else {
                old(cfg).treasury_wallet
            }),
            ..*old(cfg)
        }),
        r is Ok ==> bps_weights_valid(*final(cfg)),
{
    if caller != cfg.admin {
        return Err(FlywheelError::Unauthorized);
    }
    let new_buyback: u16 = match buyback_bps {
        Some(b) => b,
        None => cfg.buyback_bps,
    };
    let new_burn: u16 = match burn_bps {
        Some(b) => b,
        None => cfg.burn_bps,
    };
    if (new_buyback as u32) + (new_burn as u32) > 10000 {
        return Err(FlywheelError::InvalidBpsSum);
    }
    cfg.buyback_bps = new_buyback;
    cfg.burn_bps = new_burn;
    cfg.lp_add_bps = 10000 - new_buyback - new_burn;
    if let Some(new_interval) = min_interval_seconds {
        cfg.min_interval_seconds = new_interval;
    }
    if let Some(new_treasury) = treasury_wallet {
        cfg.treasury_wallet = Some(new_treasury);
    }
    Ok(ConfigUpdated { buyback_bps, burn_bps, min_interval_seconds, timestamp: now })
}

} // verus!
