use vstd::prelude::*;

verus! {

/// The engine's exchange seam: turns a buyback allocation, denominated in
/// fee-token units, into acquired burn-token units. A future exchange
/// integration replaces the adapter without touching gating or accounting;
/// the engine's contract speaks of the adapter's outcome through
/// [`SwapAdapter::spec_out`].
pub trait SwapAdapter {
    /// The amount of burn-token units the adapter yields for `amount_in`.
    spec fn spec_out(&self, amount_in: u64) -> u64;

    /// Performs the exchange and reports the acquired amount.
    fn swap(&self, amount_in: u64) -> (r: u64)
        ensures
            r == self.spec_out(amount_in),
    ;
}

/// The default adapter: a one-to-one placeholder that assumes the buyback
/// amount is acquired unchanged, pending a real exchange integration.
#[derive(Clone, Copy, Debug, PartialEq, Eq)]
pub struct IdentitySwap;

impl SwapAdapter for IdentitySwap {
    open spec fn spec_out(&self, amount_in: u64) -> u64 {
        amount_in
    }

    fn swap(&self, amount_in: u64) -> (r: u64) {
        amount_in
    }
}

} // verus!
