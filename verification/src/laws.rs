use vstd::prelude::*;
use crate::engine::LedgerState;
use crate::error::VaultError;
use crate::math::{mul_div, lemma_div_frac_le, lemma_div_times_divisor_le};
use vstd::arithmetic::div_mod::{
    lemma_div_is_ordered, lemma_div_multiples_vanish, lemma_div_pos_is_pos,
    lemma_multiply_divide_lt,
};
use vstd::arithmetic::mul::{
    lemma_mul_is_commutative, lemma_mul_left_inequality, lemma_mul_nonnegative,
    lemma_mul_strict_inequality,
};

verus! {

/// Fixed-point multiplier used to compare value-per-share ratios without
/// floating point.
pub const FP_PRECISION: u64 = 1_000_000_000;

/// The value of one share, as a fixed-point integer with `FP_PRECISION`
/// fractional resolution: `floor(assets * FP_PRECISION / supply)`.
/// Meaningful only for `supply > 0`.
pub open spec fn value_per_share_fp(assets: u64, supply: u64) -> int {
    (assets * FP_PRECISION) / (supply as int)
}

/// A deposit never dilutes existing holders: on any well-formed ledger with
/// shares outstanding, a successful deposit leaves the fixed-point value per
/// share at least as high as it found it. The rounding rule is the reason —
/// the depositor receives `floor(amount * supply / assets)` shares, so the
/// rounding loss accrues to the pool.
pub proof fn lemma_deposit_share_value_monotonic(pre: LedgerState, amount: u64, minted: u64)
    requires
        pre.wf(),
        pre.deposit_outcome(amount) == Ok::<u64, VaultError>(minted),
        pre.share_supply > 0,
    ensures
        value_per_share_fp(
            pre.deposit_applied(amount, minted).vault_underlying,
            pre.deposit_applied(amount, minted).share_supply,
        ) >= value_per_share_fp(pre.vault_underlying, pre.share_supply),
{
    let a = pre.vault_underlying as int;
    let s = pre.share_supply as int;
    let amt = amount as int;
    let m = minted as int;
    let k = FP_PRECISION as int;
    assert(a > 0);
    lemma_mul_nonnegative(amt, s);
    lemma_div_pos_is_pos(amt * s, a);
    assert(m == (amt * s) / a);
    lemma_div_times_divisor_le(amt * s, a);
    assert(m * a <= amt * s);
    let post = pre.deposit_applied(amount, minted);
    assert(post.vault_underlying == a + amt);
    assert(post.share_supply == s + m);
    lemma_mul_nonnegative(a, k);
    lemma_mul_nonnegative((a + amt), k);
    assert((a * k) * (s + m) <= ((a + amt) * k) * s) by (nonlinear_arith)
        requires
            m * a <= amt * s,
            0 <= a,
            0 <= s,
            0 <= m,
            0 <= amt,
            0 <= k,
    ;
    lemma_div_frac_le(a * k, s, (a + amt) * k, s + m);
}

/// A redemption never dilutes the holders who stay: when a successful
/// redemption burns fewer shares than the whole supply, the fixed-point
/// value per remaining share is at least what it was before. Symmetric to
/// the deposit law: the redeemer receives `floor(shares * assets / supply)`,
/// so the rounding loss stays in the pool.
pub proof fn lemma_redeem_share_value_monotonic(pre: LedgerState, shares: u64, returned: u64)
    requires
        pre.wf(),
        pre.redeem_outcome(shares) == Ok::<u64, VaultError>(returned),
        shares < pre.share_supply,
    ensures
        value_per_share_fp(
            pre.redeem_applied(shares, returned).vault_underlying,
            pre.redeem_applied(shares, returned).share_supply,
        ) >= value_per_share_fp(pre.vault_underlying, pre.share_supply),
{
    let a = pre.vault_underlying as int;
    let s = pre.share_supply as int;
    let sh = shares as int;
    let u = returned as int;
    let k = FP_PRECISION as int;
    assert(a > 0);
    lemma_mul_nonnegative(sh, a);
    lemma_div_pos_is_pos(sh * a, s);
    assert(u == (sh * a) / s);
    lemma_div_times_divisor_le(sh * a, s);
    assert(u * s <= sh * a);
    crate::engine::lemma_returned_le_vault_balance(
        shares,
        pre.share_supply,
        pre.vault_underlying,
        returned,
    );
    assert(u <= a);
    let post = pre.redeem_applied(shares, returned);
    assert(post.vault_underlying == a - u);
    assert(post.share_supply == s - sh);
    lemma_mul_nonnegative(a, k);
    lemma_mul_nonnegative((a - u), k);
    assert((a * k) * (s - sh) <= ((a - u) * k) * s) by (nonlinear_arith)
        requires
            u * s <= sh * a,
            0 <= u <= a,
            0 <= sh,
            0 <= s,
            0 <= k,
    ;
    lemma_div_frac_le(a * k, s, (a - u) * k, s - sh);
}

/// The fairness bound: past bootstrap, a depositor never receives more than
/// the exact proportional entitlement plus a 0.1% rounding tolerance. (The
/// engine in fact mints the floor of the entitlement exactly, so the
/// tolerance is never consumed.)
pub proof fn lemma_deposit_fairness_bound(pre: LedgerState, amount: u64, minted: u64)
    requires
        pre.wf(),
        pre.deposit_outcome(amount) == Ok::<u64, VaultError>(minted),
        pre.share_supply > 0,
    ensures
        ({
            let entitlement = mul_div(amount, pre.share_supply, pre.vault_underlying);
            minted <= entitlement + entitlement / 1000
        }),
{
    let entitlement = mul_div(amount, pre.share_supply, pre.vault_underlying);
    assert(minted == entitlement);
    assert(entitlement / 1000 >= 0);
}

/// Calculation accuracy: past bootstrap, the minted shares differ from the
/// exact floored entitlement `floor(amount * supply / assets)` by at most
/// one unit. (The engine computes it exactly; the slack is stated for the
/// benefit of callers that recompute the entitlement independently.)
pub proof fn lemma_deposit_calculation_accuracy(pre: LedgerState, amount: u64, minted: u64)
    requires
        pre.wf(),
        pre.deposit_outcome(amount) == Ok::<u64, VaultError>(minted),
        pre.share_supply > 0,
    ensures
        -1 <= minted - mul_div(amount, pre.share_supply, pre.vault_underlying) <= 1,
{
    assert(minted == mul_div(amount, pre.share_supply, pre.vault_underlying));
}

/// Full exit: redeeming the entire outstanding share supply returns the
/// vault's entire underlying balance exactly — the floored slice
/// `floor(supply * assets / supply)` loses nothing — and leaves the share
/// supply at zero, the bootstrap state.
pub proof fn lemma_redeem_all_returns_everything(pre: LedgerState, returned: u64)
    requires
        pre.wf(),
        pre.redeem_outcome(pre.share_supply) == Ok::<u64, VaultError>(returned),
    ensures
        returned == pre.vault_underlying,
        pre.redeem_applied(pre.share_supply, returned).share_supply == 0,
{
    let a = pre.vault_underlying as int;
    let s = pre.share_supply as int;
    assert(s > 0 && a > 0);
    lemma_div_multiples_vanish(a, s);
    assert((s * a) / s == a);
}

/// On a fully backed vault — every share covered by at least one unit of
/// custody, `share_supply <= vault_underlying`, which holds of every
/// environment the oracle builds — a depositor never receives more shares
/// than units paid in: shares trade at or above par, so no premium is ever
/// minted.
pub proof fn lemma_deposit_bounded_by_amount(pre: LedgerState, amount: u64, minted: u64)
    requires
        pre.wf(),
        pre.share_supply <= pre.vault_underlying,
        pre.deposit_outcome(amount) == Ok::<u64, VaultError>(minted),
    ensures
        minted <= amount,
{
    if pre.share_supply > 0 {
        let a = pre.vault_underlying as int;
        let s = pre.share_supply as int;
        let amt = amount as int;
        assert(a > 0 && amt > 0);
        lemma_mul_nonnegative(amt, s);
        lemma_div_pos_is_pos(amt * s, a);
        assert(minted == (amt * s) / a);
        lemma_mul_left_inequality(amt, s, a);
        assert(amt * s <= amt * a);
        lemma_div_is_ordered(amt * s, amt * a, a);
        lemma_mul_is_commutative(amt, a);
        lemma_div_multiples_vanish(amt, a);
        assert((amt * a) / a == amt);
    }
}

/// Solvency: shares outstanding are always backed by a nonempty vault.
pub open spec fn solvent(state: LedgerState) -> bool {
    state.share_supply > 0 ==> state.vault_underlying > 0
}

/// A deposit keeps the vault solvent: afterwards the custody balance holds
/// at least the deposited amount, so shares are never left outstanding
/// against a drained vault.
pub proof fn lemma_deposit_preserves_solvency(pre: LedgerState, amount: u64, minted: u64)
    requires
        pre.wf(),
        pre.deposit_outcome(amount) == Ok::<u64, VaultError>(minted),
    ensures
        solvent(pre.deposit_applied(amount, minted)),
{
    assert(amount > 0);
}

/// A redemption keeps the vault solvent: the floored slice
/// `floor(shares * assets / supply)` for `shares < supply` is strictly less
/// than the whole balance, so whenever shares remain outstanding, custody
/// remains nonempty. Together with the deposit law this is why the
/// drained-vault guard of the deposit path can never fire on a ledger that
/// only the engine has operated.
pub proof fn lemma_redeem_preserves_solvency(pre: LedgerState, shares: u64, returned: u64)
    requires
        pre.wf(),
        solvent(pre),
        pre.redeem_outcome(shares) == Ok::<u64, VaultError>(returned),
    ensures
        solvent(pre.redeem_applied(shares, returned)),
{
    let a = pre.vault_underlying as int;
    let s = pre.share_supply as int;
    let sh = shares as int;
    let post = pre.redeem_applied(shares, returned);
    if post.share_supply > 0 {
        assert(sh < s);
        lemma_mul_nonnegative(sh, a);
        lemma_div_pos_is_pos(sh * a, s);
        assert(returned == (sh * a) / s);
        lemma_mul_strict_inequality(sh, s, a);
        assert(sh * a < s * a);
        lemma_multiply_divide_lt(sh * a, s, a);
        assert((sh * a) / s < a);
    }
}

} // verus!
