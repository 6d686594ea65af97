use vstd::prelude::*;

use crate::errors::FlywheelError;
use crate::state::{AccountId, FlywheelConfig};

verus! {

/// Whether `now` falls outside the inclusive `[epoch_start, epoch_end]`
/// window of the record.
pub open spec fn outside_epoch(cfg: FlywheelConfig, now: u64) -> bool {
    now < cfg.epoch_start || now > cfg.epoch_end
}

/// The gating decision: `Ok(())` when an execution at `now` by `executor`
/// is permitted, otherwise the one reason it is denied.
///
/// The epoch step denies `OutsideEpoch` to a non-admin outside the window.
/// The interval step then applies to every request the epoch step let
/// through — the admin included, even outside the window: it denies
/// `MathOverflow` when the clock reads earlier than `last_execution`, and
/// `InsufficientInterval` when less than `min_interval_seconds` has elapsed.
pub open spec fn permit_decision(cfg: FlywheelConfig, executor: AccountId, now: u64) -> Result<
    (),
    FlywheelError,
> {
    if outside_epoch(cfg, now) && executor != cfg.admin {
        Err(FlywheelError::OutsideEpoch)
    } else if now < cfg.last_execution {
        Err(FlywheelError::MathOverflow)
    } else if now - cfg.last_execution < cfg.min_interval_seconds {
        Err(FlywheelError::InsufficientInterval)
    } else {
        Ok(())
    }
}

/// Decides whether an execution request is currently permitted. No side
/// effects; the engine aborts on the returned reason without touching any
/// state.
pub fn permit(cfg: &FlywheelConfig, executor: AccountId, now: u64) -> (r: Result<
    (),
    FlywheelError,
>)
    ensures
        r == permit_decision(*cfg, executor, now),
{
    let outside = now < cfg.epoch_start || now > cfg.epoch_end;
    if outside && executor != cfg.admin {
        return Err(FlywheelError::OutsideEpoch);
    }
    // The interval gate holds for every request that passed the epoch step,
    // whoever made it: an admin acting outside the window still waits out
    // the interval.
    let elapsed = match now.checked_sub(cfg.last_execution) {
        Some(e) => e,
        None => {
            return Err(FlywheelError::MathOverflow);
        },
    };
    if elapsed < cfg.min_interval_seconds {
        return Err(FlywheelError::InsufficientInterval);
    }
    Ok(())
}

/// Interval idempotence: once an execution has committed at `now1` — so the
/// record's `last_execution` reads `now1` — a second request at any `now2`
/// short of the minimum interval is denied `InsufficientInterval`, whoever
/// makes it, the admin included. The law asks that the epoch step did not
/// already deny the second request (a non-admin outside the window is denied
/// `OutsideEpoch` instead) and that the clock did not run backwards (a
/// request dated before `last_execution` is denied `MathOverflow` instead).
pub proof fn lemma_interval_idempotence(
    cfg: FlywheelConfig,
    executor: AccountId,
    now1: u64,
    now2: u64,
)
    requires
        cfg.last_execution == now1,
        now1 <= now2,
        now2 - now1 < cfg.min_interval_seconds,
        !outside_epoch(cfg, now2) || executor == cfg.admin,
    ensures
        permit_decision(cfg, executor, now2) == Err::<(), FlywheelError>(
            FlywheelError::InsufficientInterval,
        ),
{
}

/// Epoch boundary: the window is inclusive at both ends. For a non-admin
/// executor, a request dated exactly `epoch_start` or exactly `epoch_end` is
/// never denied `OutsideEpoch`, while one second before the start or after
/// the end always is.
pub proof fn lemma_epoch_boundary(cfg: FlywheelConfig, executor: AccountId)
    requires
        cfg.epoch_start <= cfg.epoch_end,
        executor != cfg.admin,
    ensures
        !outside_epoch(cfg, cfg.epoch_start),
        !outside_epoch(cfg, cfg.epoch_end),
        permit_decision(cfg, executor, cfg.epoch_start) != Err::<(), FlywheelError>(
            FlywheelError::OutsideEpoch,
        ),
        permit_decision(cfg, executor, cfg.epoch_end) != Err::<(), FlywheelError>(
            FlywheelError::OutsideEpoch,
        ),
        cfg.epoch_start > 0 ==> outside_epoch(cfg, (cfg.epoch_start - 1) as u64)
            && permit_decision(cfg, executor, (cfg.epoch_start - 1) as u64) == Err::<
            (),
            FlywheelError,
        >(FlywheelError::OutsideEpoch),
        cfg.epoch_end < u64::MAX ==> outside_epoch(cfg, (cfg.epoch_end + 1) as u64)
            && permit_decision(cfg, executor, (cfg.epoch_end + 1) as u64) == Err::<
            (),
            FlywheelError,
        >(FlywheelError::OutsideEpoch),
{
}

} // verus!
