use vstd::prelude::*;
use crate::snapshot::WalletSnapshot;

verus! {

/// Lamports counted for one smallest unit of the stablecoin: with 1 SOL worth
/// about 200 USDC, 1 USDC (10^6 units) is about 5 * 10^6 lamports. A fixed
/// heuristic, not a live price.
pub const LAMPORTS_PER_USDC_UNIT: i128 = 5;

/// The signed change of a balance from `before` to `after`.
pub open spec fn delta(before: u64, after: u64) -> int {
    after as int - before as int
}

/// Profit in lamports: the native and wrapped deltas, plus the stablecoin
/// delta weighted by `LAMPORTS_PER_USDC_UNIT`.
pub open spec fn profit_of(before: WalletSnapshot, after: WalletSnapshot) -> int {
    delta(before.sol_lamports, after.sol_lamports) + delta(before.wsol_amount, after.wsol_amount)
        + delta(before.usdc_amount, after.usdc_amount) * 5
}

/// Computes the profit, in lamports, between two snapshots:
/// `ΔSOL + ΔWSOL + ΔUSDC * 5`, always `after - before`.
pub fn compute_profit_lamports(before: &WalletSnapshot, after: &WalletSnapshot) -> (r: i128)
    ensures
        r as int == profit_of(*before, *after),
{
    let delta_sol: i128 = after.sol_lamports as i128 - before.sol_lamports as i128;
    let delta_wsol: i128 = after.wsol_amount as i128 - before.wsol_amount as i128;
    let delta_usdc: i128 = after.usdc_amount as i128 - before.usdc_amount as i128;
    delta_sol + delta_wsol + delta_usdc * LAMPORTS_PER_USDC_UNIT
}

/// Nothing changed, no profit.
pub proof fn lemma_profit_unchanged(s: WalletSnapshot)
    ensures
        profit_of(s, s) == 0,
{
}

/// Swapping the two snapshots negates the profit.
pub proof fn lemma_profit_antisymmetric(a: WalletSnapshot, b: WalletSnapshot)
    ensures
        profit_of(a, b) == -profit_of(b, a),
{
}

/// Two pairs of snapshots that agree on the native and wrapped balances have
/// profits that differ by exactly five times the difference of their
/// stablecoin deltas.
pub proof fn lemma_profit_linear_in_stable(
    before1: WalletSnapshot,
    after1: WalletSnapshot,
    before2: WalletSnapshot,
    after2: WalletSnapshot,
)
    requires
        before1.sol_lamports == before2.sol_lamports,
        before1.wsol_amount == before2.wsol_amount,
        after1.sol_lamports == after2.sol_lamports,
        after1.wsol_amount == after2.wsol_amount,
    ensures
        profit_of(before2, after2) - profit_of(before1, after1) == 5 * (
        (after2.usdc_amount - after1.usdc_amount) - (before2.usdc_amount - before1.usdc_amount)),
{
}

/// The profit between any two snapshots lies within the range of `i128`.
pub proof fn lemma_profit_fits_i128(before: WalletSnapshot, after: WalletSnapshot)
    ensures
        i128::MIN <= profit_of(before, after) <= i128::MAX,
        -7 * (u64::MAX as int) <= profit_of(before, after) <= 7 * (u64::MAX as int),
{
}

} // verus!
