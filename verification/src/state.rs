use vstd::prelude::*;

verus! {

/// An account identity: the admin, the governed token's mint, the fee vault,
/// a depositor, a recipient or a treasury wallet. The policy only ever asks
/// whether two identities are the same party, so an identity is carried as
/// one plain number; the host maps its own key material to these numbers.
#[derive(Clone, Copy, Debug, PartialEq, Eq, Structural)]
pub struct AccountId {
    pub value: u64,
}

/// The single long-lived configuration and ledger record.
///
/// `buyback_bps`, `burn_bps` and `lp_add_bps` are weights in basis points
/// (1/100 of a percent; 10000 is the whole). A valid record always satisfies
/// [`bps_weights_valid`]: the buyback and burn weights sum to at most 10000
/// and the liquidity-add weight is exactly the rest.
///
/// `epoch_start` and `epoch_end` bound, inclusively, the Unix-time window in
/// which non-admin execution is permitted; no operation changes them after
/// creation. `last_execution` starts at zero and never decreases. The four
/// cumulative counters never decrease and are only ever advanced by a
/// successful execution.
#[derive(Clone, Copy, Debug, PartialEq, Eq)]
pub struct FlywheelConfig {
    /// The identity authorized for privileged operations.
    pub admin: AccountId,
    /// The governed token's mint.
    pub token_mint: AccountId,
    /// The fee-collection account the engine drains.
    pub fee_vault: AccountId,
    /// Weight of the buyback allocation, in basis points.
    pub buyback_bps: u16,
    /// Weight of the burn allocation, in basis points.
    pub burn_bps: u16,
    /// Weight of the liquidity-add allocation: always the rest of the whole.
    pub lp_add_bps: u16,
    /// First second, inclusive, of the permitted window (Unix time).
    pub epoch_start: u64,
    /// Last second, inclusive, of the permitted window (Unix time).
    pub epoch_end: u64,
    /// Minimum seconds that must elapse between consecutive executions.
    pub min_interval_seconds: u64,
    /// Unix time of the most recent successful execution; zero before the
    /// first one.
    pub last_execution: u64,
    /// Optional treasury identity; stored only, with no effect on execution.
    pub treasury_wallet: Option<AccountId>,
    /// Sum of every vault balance an execution has processed.
    pub total_fees_collected: u64,
    /// Sum of every computed buyback allocation.
    pub total_bought_back: u64,
    /// Sum of every amount actually burned.
    pub total_burned: u64,
    /// Sum of every computed liquidity-add allocation.
    pub total_lp_added: u64,
    /// Derivation material for the engine's authority over the vault; opaque
    /// to the policy, handed back to the host as it was given.
    pub config_bump: u8,
}

/// The weight invariant of a well-formed record: the buyback and burn
/// weights fit inside the whole, and the liquidity-add weight is exactly
/// what remains of it. Established by initialization, re-established by
/// every successful update, untouched by everything else.
pub open spec fn bps_weights_valid(cfg: FlywheelConfig) -> bool {
    &&& cfg.buyback_bps + cfg.burn_bps <= 10000
    &&& cfg.lp_add_bps == 10000 - cfg.buyback_bps - cfg.burn_bps
}

/// A per-execution audit record. The schema is laid out for hosts that want
/// a durable trail, but no operation of the engine populates it yet.
#[derive(Clone, Copy, Debug, PartialEq, Eq)]
pub struct ExecutionLog {
    /// The configuration record the execution ran against.
    pub config: AccountId,
    /// Unix time of the execution.
    pub timestamp: u64,
    /// The vault balance that was processed.
    pub fees_in: u64,
    /// The computed buyback allocation.
    pub buyback_amount: u64,
    /// The computed burn allocation.
    pub burn_amount: u64,
    /// The computed liquidity-add allocation.
    pub lp_add_amount: u64,
    /// Derivation material for the log's own address.
    pub bump: u8,
}

} // verus!
