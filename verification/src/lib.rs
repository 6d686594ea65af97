//! A periodic fee-redistribution ("flywheel") policy for a token economy.
//!
//! Deposited fees accumulate in a shared vault. On each permitted execution
//! the accumulated balance is split, by basis-point weights, into a buyback
//! allocation, a burn allocation and a liquidity-add allocation, and the
//! configuration record's cumulative ledger is advanced. Execution is gated
//! by an inclusive epoch window and a minimum re-execution interval.
//!
//! The library holds the policy itself: the gating decision, the basis-point
//! splitter, the engine's state transition, and the record lifecycle
//! (initialize, update, deposit, emergency withdraw). Moving tokens, storing
//! the record, reading the clock and emitting notifications are a host's
//! work; every operation here takes the observed balances and the current
//! time as plain values and returns the notification payloads to emit.

pub mod engine;
pub mod errors;
pub mod events;
pub mod gating;
pub mod lifecycle;
pub mod split;
pub mod state;
pub mod swap;
pub mod vault;
