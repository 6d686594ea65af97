use vstd::prelude::*;

use vstd::arithmetic::div_mod::{lemma_div_is_ordered, lemma_div_of0};
use vstd::arithmetic::mul::lemma_mul_nonnegative;

use crate::errors::FlywheelError;
use crate::events::{FlywheelExecuted, TokensBurned};
use crate::gating::{permit, permit_decision};
use crate::split::{lemma_split_within_balance, share_fits, share_of, split};
use crate::state::{bps_weights_valid, AccountId, FlywheelConfig};
use crate::swap::SwapAdapter;

verus! {

/// What one successful execution hands back to the host: the completion
/// notification payload, and, where tokens were burned, the burn
/// notification payload beside it.
#[derive(Clone, Copy, Debug, PartialEq, Eq)]
pub struct ExecutionResult {
    pub executed: FlywheelExecuted,
    /// Present exactly when the burn step ran.
    pub burn_notice: Option<TokensBurned>,
}

/// Whether all three weighted products of the record's weights with
/// `balance` stay inside the 64-bit range, so the splitter succeeds.
pub open spec fn splits_fit(cfg: FlywheelConfig, balance: u64) -> bool {
    &&& share_fits(balance, cfg.buyback_bps)
    &&& share_fits(balance, cfg.burn_bps)
    &&& share_fits(balance, cfg.lp_add_bps)
}

/// Whether the burn step runs: there is something to burn, and the vault
/// still covers it.
pub open spec fn burn_executes(balance: u64, total_to_burn: u64) -> bool {
    total_to_burn > 0 && balance >= total_to_burn
}

/// Whether every counter of the ledger still fits in 64 bits after adding
/// this execution's amounts.
pub open spec fn counters_fit(
    cfg: FlywheelConfig,
    balance: u64,
    buyback: u64,
    counted_burn: u64,
    lp_add: u64,
) -> bool {
    &&& cfg.total_fees_collected + balance <= u64::MAX
    &&& cfg.total_bought_back + buyback <= u64::MAX
    &&& cfg.total_burned + counted_burn <= u64::MAX
    &&& cfg.total_lp_added + lp_add <= u64::MAX
}

/// The cosmetic supply estimate carried by the burn notification: the mint
/// supply less the burned amount, floored at zero.
pub open spec fn supply_after_burn(mint_supply: u64, burned: u64) -> u64 {
    if mint_supply >= burned {
        (mint_supply - burned) as u64
    } else {
        0u64
    }
}

/// Under a well-formed record the buyback and burn shares together never
/// exceed the balance. With the identity adapter the total to burn is
/// exactly those two shares, so the vault always covers it and the burn
/// step is skipped only when there is nothing to burn at all.
pub proof fn lemma_identity_burn_covered(cfg: FlywheelConfig, balance: u64)
    requires
        bps_weights_valid(cfg),
    ensures
        share_of(balance, cfg.buyback_bps) + share_of(balance, cfg.burn_bps) <= balance,
{
    lemma_split_within_balance(balance, cfg.buyback_bps, cfg.burn_bps, cfg.lp_add_bps);
    lemma_mul_nonnegative(balance as int, cfg.lp_add_bps as int);
    lemma_div_is_ordered(0, balance * cfg.lp_add_bps, 10000);
    lemma_div_of0(10000);
}

/// Runs one flywheel execution against the record and the observed vault
/// balance.
///
/// The gating policy decides first; a denial aborts with its reason and no
/// state changes. An empty vault aborts with `EmptyVault`. The splitter then
/// computes the three allocations; the adapter exchanges the buyback
/// allocation for acquired burn-token units; acquired plus the burn
/// allocation is the total to burn. The burn runs only when that total is
/// positive and the vault still covers it — otherwise it is skipped
/// silently, the amounts still being accounted as computed, except that
/// `total_burned` advances only by what was actually burned. Every
/// accumulation is overflow-checked and any overflow aborts the whole
/// operation with `MathOverflow`, record and vault untouched: the commit is
/// all-or-nothing.
pub fn execute_flywheel<S: SwapAdapter>(
    cfg: &mut FlywheelConfig,
    vault_balance: &mut u64,
    swap: &S,
    executor: AccountId,
    now: u64,
    mint_supply: u64,
) -> (r: Result<ExecutionResult, FlywheelError>)
    ensures
        r is Err ==> *final(cfg) == *old(cfg) && *final(vault_balance) == *old(vault_balance),
        permit_decision(*old(cfg), executor, now) matches Err(reason) ==> r == Err::<
            ExecutionResult,
            FlywheelError,
        >(reason),
        permit_decision(*old(cfg), executor, now) is Ok && *old(vault_balance) == 0 ==> r == Err::<
            ExecutionResult,
            FlywheelError,
        >(FlywheelError::EmptyVault),
        permit_decision(*old(cfg), executor, now) is Ok && *old(vault_balance) > 0 && !splits_fit(
            *old(cfg),
            *old(vault_balance),
        ) ==> r == Err::<ExecutionResult, FlywheelError>(FlywheelError::MathOverflow),
        ({
            let cfg0 = *old(cfg);
            let v = *old(vault_balance);
            let buyback = share_of(v, cfg0.buyback_bps) as u64;
            let burn = share_of(v, cfg0.burn_bps) as u64;
            let lp_add = share_of(v, cfg0.lp_add_bps) as u64;
            let acquired = swap.spec_out(buyback);
            permit_decision(cfg0, executor, now) is Ok && v > 0 && splits_fit(cfg0, v) ==> if
            acquired + burn > u64::MAX {
                r == Err::<ExecutionResult, FlywheelError>(FlywheelError::MathOverflow)
            } else {
                let total_to_burn = (acquired + burn) as u64;
                let burned = burn_executes(v, total_to_burn);
                let counted_burn: u64 = if burned {
                    total_to_burn
                } else {
                    0u64
                };
                if !counters_fit(cfg0, v, buyback, counted_burn, lp_add) {
                    r == Err::<ExecutionResult, FlywheelError>(FlywheelError::MathOverflow)
                } else {
                    &&& r == Ok::<ExecutionResult, FlywheelError>(
                        ExecutionResult {
                            executed: FlywheelExecuted {
                                fees_processed: v,
                                buyback_amount: buyback,
                                burn_amount: burn,
                                lp_add_amount: lp_add,
                                timestamp: now,
                            },
                            burn_notice: if burned {
                                Some(
                                    TokensBurned {
                                        amount: total_to_burn,
                                        total_supply: supply_after_burn(mint_supply, total_to_burn),
                                        timestamp: now,
                                    },
                                )
                            } else {
                                None::<TokensBurned>
                            },
                        },
                    )
                    &&& *final(vault_balance) == (if burned {
                        (v - total_to_burn) as u64
                    } else {
                        v
                    })
                    &&& *final(cfg) == (FlywheelConfig {
                        last_execution: now,
                        total_fees_collected: (cfg0.total_fees_collected + v) as u64,
                        total_bought_back: (cfg0.total_bought_back + buyback) as u64,
                        total_burned: (cfg0.total_burned + counted_burn) as u64,
                        total_lp_added: (cfg0.total_lp_added + lp_add) as u64,
                        ..cfg0
                    })
                }
            }
        }),
        bps_weights_valid(*old(cfg)) ==> bps_weights_valid(*final(cfg)),
        final(cfg).last_execution >= old(cfg).last_execution,
        final(cfg).total_fees_collected >= old(cfg).total_fees_collected,
        final(cfg).total_bought_back >= old(cfg).total_bought_back,
        final(cfg).total_burned >= old(cfg).total_burned,
        final(cfg).total_lp_added >= old(cfg).total_lp_added,
        final(cfg).admin == old(cfg).admin && final(cfg).epoch_start == old(cfg).epoch_start
            && final(cfg).epoch_end == old(cfg).epoch_end,
{
    if let Err(reason) = permit(cfg, executor, now) {
        return Err(reason);
    }
    let v: u64 = *vault_balance;
    if v == 0 {
        return Err(FlywheelError::EmptyVault);
    }
    let amounts = match split(v, cfg.buyback_bps, cfg.burn_bps, cfg.lp_add_bps) {
        Ok(a) => a,
        Err(reason) => {
            return Err(reason);
        },
    };
    let acquired = swap.swap(amounts.buyback);
    let total_to_burn = match acquired.checked_add(amounts.burn) {
        Some(t) => t,
        None => {
            return Err(FlywheelError::MathOverflow);
        },
    };
    let will_burn = total_to_burn > 0 && v >= total_to_burn;
    let counted_burn: u64 = if will_burn {
        total_to_burn
    } else {
        0
    };
    let new_fees_collected = match cfg.total_fees_collected.checked_add(v) {
        Some(t) => t,
        None => {
            return Err(FlywheelError::MathOverflow);
        },
    };
    let new_bought_back = match cfg.total_bought_back.checked_add(amounts.buyback) {
        Some(t) => t,
        None => {
            return Err(FlywheelError::MathOverflow);
        },
    };
    let new_burned = match cfg.total_burned.checked_add(counted_burn) {
        Some(t) => t,
        None => {
            return Err(FlywheelError::MathOverflow);
        },
    };
    let new_lp_added = match cfg.total_lp_added.checked_add(amounts.lp_add) {
        Some(t) => t,
        None => {
            return Err(FlywheelError::MathOverflow);
        },
    };
    // Every check passed: commit the whole execution at once.
    cfg.last_execution = now;
    cfg.total_fees_collected = new_fees_collected;
    cfg.total_bought_back = new_bought_back;
    cfg.total_burned = new_burned;
    cfg.total_lp_added = new_lp_added;
    if will_burn {
        *vault_balance = v - total_to_burn;
    }
    let executed = FlywheelExecuted {
        fees_processed: v,
        buyback_amount: amounts.buyback,
        burn_amount: amounts.burn,
        lp_add_amount: amounts.lp_add,
        timestamp: now,
    };
    let burn_notice = if will_burn {
        Some(
            TokensBurned {
                amount: total_to_burn,
                total_supply: mint_supply.saturating_sub(total_to_burn),
                timestamp: now,
            },
        )
    } else {
        None
    };
    Ok(ExecutionResult { executed, burn_notice })
}

} // verus!
