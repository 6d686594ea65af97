use vstd::prelude::*;

use crate::state::AccountId;

verus! {

/// Notification payload: a configuration record was created.
#[derive(Clone, Copy, Debug, PartialEq, Eq)]
pub struct ConfigInitialized {
    pub admin: AccountId,
    pub token_mint: AccountId,
    pub fee_vault: AccountId,
    pub buyback_bps: u16,
    pub burn_bps: u16,
    pub epoch_start: u64,
    pub epoch_end: u64,
    pub timestamp: u64,
}

/// Notification payload: a configuration record was patched. The three
/// optional fields repeat the patch as it was requested.
#[derive(Clone, Copy, Debug, PartialEq, Eq)]
pub struct ConfigUpdated {
    pub buyback_bps: Option<u16>,
    pub burn_bps: Option<u16>,
    pub min_interval_seconds: Option<u64>,
    pub timestamp: u64,
}

/// Notification payload: fees were moved into the vault.
#[derive(Clone, Copy, Debug, PartialEq, Eq)]
pub struct FeesDeposited {
    pub amount: u64,
    /// The vault balance after the deposit.
    pub vault_balance: u64,
    pub depositor: AccountId,
    pub timestamp: u64,
}

/// Notification payload: one flywheel execution completed.
#[derive(Clone, Copy, Debug, PartialEq, Eq)]
pub struct FlywheelExecuted {
    /// The whole vault balance the execution processed.
    pub fees_processed: u64,
    pub buyback_amount: u64,
    pub burn_amount: u64,
    pub lp_add_amount: u64,
    pub timestamp: u64,
}

/// Notification payload: tokens were burned during an execution.
#[derive(Clone, Copy, Debug, PartialEq, Eq)]
pub struct TokensBurned {
    /// The amount burned: the acquired buyback plus the burn allocation.
    pub amount: u64,
    /// A cosmetic estimate of the supply left after the burn.
    pub total_supply: u64,
    pub timestamp: u64,
}

/// Notification payload: the admin drained the vault.
#[derive(Clone, Copy, Debug, PartialEq, Eq)]
pub struct EmergencyWithdrawn {
    pub amount: u64,
    pub recipient: AccountId,
    pub timestamp: u64,
}

} // verus!
