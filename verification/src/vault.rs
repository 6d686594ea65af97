use vstd::prelude::*;

use crate::errors::{DepositError, FlywheelError};
use crate::events::{EmergencyWithdrawn, FeesDeposited};
use crate::state::{AccountId, FlywheelConfig};

verus! {

/// Accounts for a deposit into the vault. A zero amount is refused as an
/// invalid argument; a balance that would leave the 64-bit range is refused
/// as an overflow; either way no value moves. On success the balance grows
/// by the amount and the deposit notification payload reports the new
/// balance. The configuration record is not touched by a deposit.
pub fn deposit_fees(vault_balance: &mut u64, depositor: AccountId, amount: u64, now: u64) -> (r:
    Result<FeesDeposited, DepositError>)
    ensures
        r == (if amount == 0 {
            Err::<FeesDeposited, DepositError>(DepositError::InvalidAmount)
        } else if *old(vault_balance) + amount > u64::MAX {
            Err::<FeesDeposited, DepositError>(DepositError::MathOverflow)
        } else {
            Ok::<FeesDeposited, DepositError>(
                FeesDeposited {
                    amount,
                    vault_balance: (*old(vault_balance) + amount) as u64,
                    depositor,
                    timestamp: now,
                },
            )
        }),
        r is Err ==> *final(vault_balance) == *old(vault_balance),
        r is Ok ==> *final(vault_balance) == *old(vault_balance) + amount,
{
    if amount == 0 {
        return Err(DepositError::InvalidAmount);
    }
    let new_balance = match vault_balance.checked_add(amount) {
        Some(b) => b,
        None => {
            return Err(DepositError::MathOverflow);
        },
    };
    *vault_balance = new_balance;
    Ok(FeesDeposited { amount, vault_balance: new_balance, depositor, timestamp: now })
}

/// The admin's unconditional escape hatch: drains the whole vault balance to
/// `recipient`, bypassing the gating policy entirely. A caller other than
/// the record's admin is refused `Unauthorized`; an empty vault is refused
/// `EmptyVault`; a refusal moves nothing. On success the vault reads zero
/// and the notification payload carries the drained amount.
pub fn emergency_withdraw(
    cfg: &FlywheelConfig,
    vault_balance: &mut u64,
    caller: AccountId,
    recipient: AccountId,
    now: u64,
) -> (r: Result<EmergencyWithdrawn, FlywheelError>)
    ensures
        r == (if caller != cfg.admin {
            Err::<EmergencyWithdrawn, FlywheelError>(FlywheelError::Unauthorized)
        } else if *old(vault_balance) == 0 {
            Err::<EmergencyWithdrawn, FlywheelError>(FlywheelError::EmptyVault)
        } else {
            Ok::<EmergencyWithdrawn, FlywheelError>(
                EmergencyWithdrawn { amount: *old(vault_balance), recipient, timestamp: now },
            )
        }),
        r is Err ==> *final(vault_balance) == *old(vault_balance),
        r is Ok ==> *final(vault_balance) == 0,
{
    if caller != cfg.admin {
        return Err(FlywheelError::Unauthorized);
    }
    let amount = *vault_balance;
    if amount == 0 {
        return Err(FlywheelError::EmptyVault);
    }
    *vault_balance = 0;
    Ok(EmergencyWithdrawn { amount, recipient, timestamp: now })
}

} // verus!
