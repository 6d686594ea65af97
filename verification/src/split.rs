use vstd::prelude::*;

use vstd::arithmetic::div_mod::{lemma_fundamental_div_mod, lemma_mod_bound};
use vstd::arithmetic::mul::{
    lemma_mul_inequality, lemma_mul_is_commutative, lemma_mul_is_distributive_add,
    lemma_mul_nonnegative,
};

use crate::errors::FlywheelError;

verus! {

/// The three allocations computed from one vault balance.
#[derive(Clone, Copy, Debug, PartialEq, Eq, Structural)]
pub struct SplitAmounts {
    pub buyback: u64,
    pub burn: u64,
    pub lp_add: u64,
}

/// One weighted share of a balance: the floor of `balance * bps / 10000`.
pub open spec fn share_of(balance: u64, bps: u16) -> int {
    (balance * bps) / 10000
}

/// Whether the weighted product stays inside the 64-bit range, so the
/// checked multiplication behind [`split`] succeeds.
pub open spec fn share_fits(balance: u64, bps: u16) -> bool {
    balance * bps <= u64::MAX
}

/// Computes the buyback, burn and liquidity-add allocations of `balance`
/// under the given basis-point weights. Each allocation is the floor of
/// `balance * bps / 10000`; any multiplication that leaves the 64-bit range
/// aborts the whole split with `MathOverflow`.
pub fn split(balance: u64, buyback_bps: u16, burn_bps: u16, lp_add_bps: u16) -> (r: Result<
    SplitAmounts,
    FlywheelError,
>)
    ensures
        r is Ok <==> share_fits(balance, buyback_bps) && share_fits(balance, burn_bps)
            && share_fits(balance, lp_add_bps),
        r matches Ok(a) ==> a.buyback == share_of(balance, buyback_bps) && a.burn == share_of(
            balance,
            burn_bps,
        ) && a.lp_add == share_of(balance, lp_add_bps),
        r is Err ==> r == Err::<SplitAmounts, FlywheelError>(FlywheelError::MathOverflow),
{
    let buyback = match balance.checked_mul(buyback_bps as u64) {
        Some(product) => product / 10000,
        None => {
            return Err(FlywheelError::MathOverflow);
        },
    };
    let burn = match balance.checked_mul(burn_bps as u64) {
        Some(product) => product / 10000,
        None => {
            return Err(FlywheelError::MathOverflow);
        },
    };
    let lp_add = match balance.checked_mul(lp_add_bps as u64) {
        Some(product) => product / 10000,
        None => {
            return Err(FlywheelError::MathOverflow);
        },
    };
    Ok(SplitAmounts { buyback, burn, lp_add })
}

/// Floor division never hands out more than the whole: when the three
/// weights sum to at most 10000 basis points, the three shares sum to at
/// most the balance. Whatever the rounding leaves over stays in the vault.
pub proof fn lemma_split_within_balance(
    balance: u64,
    buyback_bps: u16,
    burn_bps: u16,
    lp_add_bps: u16,
)
    requires
        buyback_bps + burn_bps + lp_add_bps <= 10000,
    ensures
        share_of(balance, buyback_bps) + share_of(balance, burn_bps) + share_of(
            balance,
            lp_add_bps,
        ) <= balance,
{
    let v = balance as int;
    let a = v * buyback_bps;
    let b = v * burn_bps;
    let c = v * lp_add_bps;
    lemma_mul_nonnegative(v, buyback_bps as int);
    lemma_mul_nonnegative(v, burn_bps as int);
    lemma_mul_nonnegative(v, lp_add_bps as int);
    lemma_fundamental_div_mod(a, 10000);
    lemma_fundamental_div_mod(b, 10000);
    lemma_fundamental_div_mod(c, 10000);
    lemma_mod_bound(a, 10000);
    lemma_mod_bound(b, 10000);
    lemma_mod_bound(c, 10000);
    let s = a / 10000 + b / 10000 + c / 10000;
    lemma_mul_is_distributive_add(10000, a / 10000 + b / 10000, c / 10000);
    lemma_mul_is_distributive_add(10000, a / 10000, b / 10000);
    assert(10000 * s <= a + b + c);
    lemma_mul_is_distributive_add(v, buyback_bps + burn_bps, lp_add_bps as int);
    lemma_mul_is_distributive_add(v, buyback_bps as int, burn_bps as int);
    assert(a + b + c == v * (buyback_bps + burn_bps + lp_add_bps));
    lemma_mul_inequality(buyback_bps + burn_bps + lp_add_bps, 10000, v);
    lemma_mul_is_commutative(buyback_bps + burn_bps + lp_add_bps, v);
    lemma_mul_is_commutative(10000, v);
    assert(10000 * s <= 10000 * v);
    assert(s <= v) by (nonlinear_arith)
        requires
            10000 * s <= 10000 * v,
    ;
}

/// The rounding dust of one split is at most two units: when the three
/// weights sum to exactly 10000 basis points, the three shares fall short of
/// the balance by at most 2.
pub proof fn lemma_split_dust_bound(balance: u64, buyback_bps: u16, burn_bps: u16, lp_add_bps: u16)
    requires
        buyback_bps + burn_bps + lp_add_bps == 10000,
    ensures
        share_of(balance, buyback_bps) + share_of(balance, burn_bps) + share_of(
            balance,
            lp_add_bps,
        ) >= balance - 2,
{
    let v = balance as int;
    let a = v * buyback_bps;
    let b = v * burn_bps;
    let c = v * lp_add_bps;
    lemma_mul_nonnegative(v, buyback_bps as int);
    lemma_mul_nonnegative(v, burn_bps as int);
    lemma_mul_nonnegative(v, lp_add_bps as int);
    lemma_fundamental_div_mod(a, 10000);
    lemma_fundamental_div_mod(b, 10000);
    lemma_fundamental_div_mod(c, 10000);
    lemma_mod_bound(a, 10000);
    lemma_mod_bound(b, 10000);
    lemma_mod_bound(c, 10000);
    let s = a / 10000 + b / 10000 + c / 10000;
    lemma_mul_is_distributive_add(10000, a / 10000 + b / 10000, c / 10000);
    lemma_mul_is_distributive_add(10000, a / 10000, b / 10000);
    assert(10000 * s >= a + b + c - 3 * 10000 + 3);
    lemma_mul_is_distributive_add(v, buyback_bps + burn_bps, lp_add_bps as int);
    lemma_mul_is_distributive_add(v, buyback_bps as int, burn_bps as int);
    assert(a + b + c == v * 10000);
    lemma_mul_is_commutative(v, 10000);
    assert(10000 * s >= 10000 * v - 3 * 10000 + 3);
    assert(s >= v - 2) by (nonlinear_arith)
        requires
            10000 * s >= 10000 * v - 3 * 10000 + 3,
    ;
}

} // verus!
