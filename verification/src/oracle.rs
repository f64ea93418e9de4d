use vstd::prelude::*;
use crate::engine::LedgerState;
use crate::error::VaultError;
use crate::laws::{
    FP_PRECISION, lemma_deposit_bounded_by_amount, lemma_deposit_calculation_accuracy,
    lemma_deposit_fairness_bound, lemma_deposit_share_value_monotonic, value_per_share_fp,
};
use crate::math::mul_div;
use vstd::arithmetic::mul::lemma_mul_upper_bound;

verus! {

/// One randomized scenario for the deposit operation: a target amount, how
/// much the depositor starts with, the underlying asset's decimal precision,
/// an optional donation injected straight into vault custody ("yield"), and
/// an optional preceding seed deposit. Arbitrary bit patterns are accepted;
/// the oracle normalizes them before use.
#[derive(Clone, Copy, Debug, PartialEq, Eq, Structural)]
pub struct DepositScenario {
    /// Amount the deposit under test will move.
    pub amount: u64,
    /// Extra underlying balance the depositor starts with.
    pub initial_balance: u64,
    /// Decimal precision of the underlying asset.
    pub decimals: u8,
    /// Underlying quantity donated directly into custody before the deposit.
    pub yield_amount: u64,
    /// Whether a seed deposit precedes the deposit under test.
    pub do_initial_deposit: bool,
    /// Amount of the seed deposit.
    pub initial_deposit_amount: u64,
}

/// Everything a scenario run reports: the normalized parameters and the
/// full ledger state on both sides of the deposit under test.
#[derive(Clone, Copy, Debug, PartialEq, Eq, Structural)]
pub struct DepositReport {
    /// The normalized deposit amount.
    pub amount: u64,
    /// The donation actually applied (zero when it could not be minted).
    pub yield_applied: u64,
    /// Whether the seed deposit ran.
    pub seeded: bool,
    /// The normalized decimal precision.
    pub decimals: u8,
    /// Ledger state just before the deposit under test.
    pub before: LedgerState,
    /// Ledger state just after it.
    pub after: LedgerState,
    /// Shares the deposit minted.
    pub shares_minted: u64,
}

/// How one scenario ended: the deposit succeeded and every invariant held;
/// or the engine rejected it with an expected, allow-listed error and the
/// input is discarded; or — never, as the postcondition of
/// `run_deposit_scenario` proves — an invariant was violated or an
/// unexpected error surfaced.
#[derive(Clone, Copy, Debug, PartialEq, Eq, Structural)]
pub enum ScenarioOutcome {
    Passed(DepositReport),
    Discarded(VaultError),
    Failed(DepositReport),
}

/// The errors a scenario is allowed to end in: expected rejections of
/// adversarial inputs, not defects.
pub open spec fn allowed_error_spec(e: VaultError) -> bool {
    ||| e == VaultError::InsufficientFunds
    ||| e == VaultError::InvalidAmount
    ||| e == VaultError::InsufficientShares
    ||| e == VaultError::MathOverflow
}

/// Decides `allowed_error_spec`.
pub fn allowed_error(e: VaultError) -> (r: bool)
    ensures
        r == allowed_error_spec(e),
{
    match e {
        VaultError::InsufficientFunds => true,
        VaultError::InvalidAmount => true,
        VaultError::InsufficientShares => true,
        VaultError::MathOverflow => true,
        _ => false,
    }
}

/// The deposit amount the runner submits: a raw zero is bumped to one, so
/// the validation rejection is never triggered trivially.
pub open spec fn normalized_amount(s: DepositScenario) -> u64 {
    if s.amount == 0 {
        1u64
    } else {
        s.amount
    }
}

/// The seed amount budgeted when funding the depositor: the raw request,
/// bumped to one when zero, and zero without a seed deposit.
pub open spec fn seed_request(s: DepositScenario) -> u64 {
    if s.do_initial_deposit {
        if s.initial_deposit_amount == 0 {
            1u64
        } else {
            s.initial_deposit_amount
        }
    } else {
        0u64
    }
}

/// `a + b`, clamped to the largest 64-bit value.
pub open spec fn saturated_add(a: u64, b: u64) -> u64 {
    if a + b > u64::MAX {
        u64::MAX
    } else {
        (a + b) as u64
    }
}

/// The depositor's funded balance: the raw starting balance topped up with
/// everything the scenario intends to spend.
pub open spec fn funded_balance(s: DepositScenario) -> u64 {
    saturated_add(s.initial_balance, saturated_add(normalized_amount(s), seed_request(s)))
}

/// The decimal precision the environment is built with, reduced to the
/// meaningful range 0..=18.
pub open spec fn normalized_decimals(s: DepositScenario) -> u8 {
    (s.decimals % 19) as u8
}

/// The donation the scenario attempts, capped below one billion.
pub open spec fn normalized_yield(s: DepositScenario) -> u64 {
    (s.yield_amount % 1_000_000_000) as u64
}

/// The seed deposit actually submitted: at least one unit, and at most half
/// the funded balance, so the deposit under test is not starved.
pub open spec fn seed_amount(s: DepositScenario) -> u64 {
    if s.initial_deposit_amount == 0 {
        1u64
    } else {
        let half = (funded_balance(s) / 2) as u64;
        if s.initial_deposit_amount < half {
            s.initial_deposit_amount
        } else {
            half
        }
    }
}

/// The fresh environment every scenario starts from: an empty vault, the
/// depositor funded, no shares in existence.
pub open spec fn fresh_environment(s: DepositScenario) -> LedgerState {
    LedgerState {
        vault_underlying: 0,
        depositor_underlying: funded_balance(s),
        share_supply: 0,
        depositor_shares: 0,
    }
}

/// The environment standing just before the deposit under test: the fresh
/// ledger, seeded when the scenario asks for it, with the donation applied
/// when the underlying supply can absorb it. Gives the state, the donation
/// actually applied, and whether the vault was seeded; a seed deposit the
/// engine rejects comes back as that error, and discards the scenario.
pub open spec fn built_environment(s: DepositScenario) -> Result<
    (LedgerState, u64, bool),
    VaultError,
> {
    let fresh = fresh_environment(s);
    let seeded_env = if s.do_initial_deposit {
        match fresh.deposit_outcome(seed_amount(s)) {
            Err(e) => Err(e),
            Ok(m) => Ok((fresh.deposit_applied(seed_amount(s), m), true)),
        }
    } else {
        Ok((fresh, false))
    };
    match seeded_env {
        Err(e) => Err(e),
        Ok(env) => {
            let donation = normalized_yield(s);
            if donation > 0 && env.0.vault_underlying + env.0.depositor_underlying + donation
                <= u64::MAX {
                Ok(
                    (
                        LedgerState {
                            vault_underlying: (env.0.vault_underlying + donation) as u64,
                            ..env.0
                        },
                        donation,
                        env.1,
                    ),
                )
            } else {
                Ok((env.0, 0u64, env.1))
            }
        },
    }
}

/// What any run of a scenario must produce: discarded with the seed's own
/// error when seeding fails; otherwise decided by the engine on the built
/// environment — passed with the full report on success, discarded with the
/// rejection otherwise.
pub open spec fn scenario_outcome_spec(s: DepositScenario) -> ScenarioOutcome {
    match built_environment(s) {
        Err(e) => ScenarioOutcome::Discarded(e),
        Ok(env) => match env.0.deposit_outcome(normalized_amount(s)) {
            Err(e) => ScenarioOutcome::Discarded(e),
            Ok(m) => ScenarioOutcome::Passed(
                DepositReport {
                    amount: normalized_amount(s),
                    yield_applied: env.1,
                    seeded: env.2,
                    decimals: normalized_decimals(s),
                    before: env.0,
                    after: env.0.deposit_applied(normalized_amount(s), m),
                    shares_minted: m,
                },
            ),
        },
    }
}

/// Conservation: no underlying asset is created or destroyed — the vault
/// and the depositor together hold afterwards exactly what they held before.
pub fn conservation_holds(before: LedgerState, after: LedgerState) -> (r: bool)
    ensures
        r == (before.vault_underlying + before.depositor_underlying
            == after.vault_underlying + after.depositor_underlying),
{
    (before.vault_underlying as u128) + (before.depositor_underlying as u128)
        == (after.vault_underlying as u128) + (after.depositor_underlying as u128)
}

/// Exact transfer: custody grew by exactly `amount` and the depositor paid
/// exactly `amount`.
pub fn exact_transfer_holds(before: LedgerState, after: LedgerState, amount: u64) -> (r: bool)
    ensures
        r == (after.vault_underlying == before.vault_underlying + amount
            && after.depositor_underlying == before.depositor_underlying - amount),
{
    (after.vault_underlying as u128) == (before.vault_underlying as u128) + (amount as u128)
        && before.depositor_underlying >= amount
        && after.depositor_underlying == before.depositor_underlying - amount
}

/// Monotonic share value: whenever shares were outstanding before, the
/// fixed-point value per share did not decrease.
pub fn share_value_preserved(before: LedgerState, after: LedgerState) -> (r: bool)
    ensures
        before.share_supply == 0 ==> r,
        before.share_supply > 0 && after.share_supply == 0 ==> !r,
        before.share_supply > 0 && after.share_supply > 0 ==> r == (value_per_share_fp(
            after.vault_underlying,
            after.share_supply,
        ) >= value_per_share_fp(before.vault_underlying, before.share_supply)),
{
    if before.share_supply == 0 {
        return true;
    }
    if after.share_supply == 0 {
        return false;
    }
    proof {
        lemma_mul_upper_bound(
            before.vault_underlying as int,
            u64::MAX as int,
            FP_PRECISION as int,
            FP_PRECISION as int,
        );
        lemma_mul_upper_bound(
            after.vault_underlying as int,
            u64::MAX as int,
            FP_PRECISION as int,
            FP_PRECISION as int,
        );
    }
    let fp_before: u128 = (before.vault_underlying as u128) * (FP_PRECISION as u128)
        / (before.share_supply as u128);
    let fp_after: u128 = (after.vault_underlying as u128) * (FP_PRECISION as u128)
        / (after.share_supply as u128);
    fp_after >= fp_before
}

/// Fairness: past bootstrap, the depositor received no more than the exact
/// proportional entitlement plus a 0.1% rounding tolerance.
pub fn fairness_holds(before: LedgerState, amount: u64, minted: u64) -> (r: bool)
    ensures
        before.share_supply == 0 || before.vault_underlying == 0 ==> r,
        before.share_supply > 0 && before.vault_underlying > 0 ==> r == ({
            let entitlement = mul_div(amount, before.share_supply, before.vault_underlying);
            minted <= entitlement + entitlement / 1000
        }),
{
    if before.share_supply == 0 || before.vault_underlying == 0 {
        return true;
    }
    proof {
        lemma_mul_upper_bound(
            amount as int,
            u64::MAX as int,
            before.share_supply as int,
            u64::MAX as int,
        );
    }
    let expected: u128 = (amount as u128) * (before.share_supply as u128)
        / (before.vault_underlying as u128);
    if (minted as u128) <= expected {
        true
    } else {
        (minted as u128) - expected <= expected / 1000
    }
}

/// Bootstrap exactness: a deposit into a vault with no shares outstanding
/// mints shares 1:1 with the amount.
pub fn bootstrap_exact_holds(before: LedgerState, amount: u64, minted: u64) -> (r: bool)
    ensures
        r == (before.share_supply == 0 ==> minted == amount),
{
    before.share_supply != 0 || minted == amount
}

/// Calculation accuracy: past bootstrap, the minted shares match the exact
/// floored entitlement to within one unit.
pub fn accuracy_holds(before: LedgerState, amount: u64, minted: u64) -> (r: bool)
    ensures
        before.share_supply == 0 || before.vault_underlying == 0 ==> r,
        before.share_supply > 0 && before.vault_underlying > 0 ==> r == (
        -1 <= minted - mul_div(amount, before.share_supply, before.vault_underlying) <= 1),
{
    if before.share_supply == 0 || before.vault_underlying == 0 {
        return true;
    }
    proof {
        lemma_mul_upper_bound(
            amount as int,
            u64::MAX as int,
            before.share_supply as int,
            u64::MAX as int,
        );
    }
    let expected: u128 = (amount as u128) * (before.share_supply as u128)
        / (before.vault_underlying as u128);
    if (minted as u128) >= expected {
        (minted as u128) - expected <= 1
    } else {
        expected - (minted as u128) <= 1
    }
}

/// Share accounting: the supply and the depositor's share balance each grew
/// by exactly the shares minted.
pub fn supply_accounting_holds(before: LedgerState, after: LedgerState, minted: u64) -> (r: bool)
    ensures
        r == (after.share_supply == before.share_supply + minted && after.depositor_shares
            == before.depositor_shares + minted),
{
    (after.share_supply as u128) == (before.share_supply as u128) + (minted as u128)
        && (after.depositor_shares as u128) == (before.depositor_shares as u128) + (minted as u128)
}

/// Sanity bound on the exchange rate, checked past bootstrap: the minted
/// shares never exceed twice the amount paid in.
pub fn reasonable_bounds_holds(before: LedgerState, amount: u64, minted: u64) -> (r: bool)
    ensures
        r == (before.share_supply > 0 ==> minted <= 2 * amount),
{
    before.share_supply == 0 || (minted as u128) <= 2 * (amount as u128)
}

/// Runs one deposit scenario end to end, the way the engine's correctness
/// contract is exercised: normalize the raw inputs, build a fresh
/// environment, optionally seed the vault with a first deposit, optionally
/// donate yield straight into custody, snapshot, run the deposit under
/// test, snapshot again, and check every invariant.
///
/// The postcondition fixes the whole run as a function of the scenario:
/// the outcome equals `scenario_outcome_spec` — so the submitted amount,
/// the funding, the seed, the applied donation and both snapshots are
/// exactly those of the construction, the run passes precisely when the
/// engine accepts the deposit on the built environment, and it can end
/// `Passed` or `Discarded` (with an allow-listed rejection) but never
/// `Failed`: no reachable scenario violates an invariant or surfaces an
/// unexpected error.
pub fn run_deposit_scenario(s: DepositScenario) -> (outcome: ScenarioOutcome)
    ensures
        outcome == scenario_outcome_spec(s),
        !(outcome is Failed),
        outcome matches ScenarioOutcome::Discarded(e) ==> allowed_error_spec(e),
        outcome matches ScenarioOutcome::Passed(rep) ==> {
            &&& rep.amount == normalized_amount(s)
            &&& rep.decimals == normalized_decimals(s)
            &&& rep.before.wf()
            &&& rep.before.share_supply <= rep.before.vault_underlying
            &&& rep.before.deposit_outcome(rep.amount) == Ok::<u64, VaultError>(rep.shares_minted)
            &&& rep.after == rep.before.deposit_applied(rep.amount, rep.shares_minted)
            &&& 0 < rep.shares_minted <= rep.amount
        },
{
    // Normalize the raw inputs the way the scenario generator promises:
    // nonzero amounts, a balance that can fund everything, bounded decimals
    // and a bounded donation.
    let amount = if s.amount == 0 { 1u64 } else { s.amount };
    let planned_seed = if s.do_initial_deposit {
        if s.initial_deposit_amount == 0 { 1u64 } else { s.initial_deposit_amount }
    } else {
        0u64
    };
    let total_needed = saturating_add_u64(amount, planned_seed);
    let initial_balance = saturating_add_u64(s.initial_balance, total_needed);
    let decimals = s.decimals % 19;
    let yield_amount = s.yield_amount % 1_000_000_000;

    // A fresh environment: an empty vault, the depositor funded.
    let mut ledger = LedgerState {
        vault_underlying: 0,
        depositor_underlying: initial_balance,
        share_supply: 0,
        depositor_shares: 0,
    };

    // Optional seed deposit, so the deposit under test exercises the
    // non-bootstrap path. A seed the engine rejects discards the scenario.
    let mut seeded = false;
    if s.do_initial_deposit {
        let half = initial_balance / 2;
        let seed_deposit = if s.initial_deposit_amount == 0 {
            1u64
        } else {
            if s.initial_deposit_amount < half { s.initial_deposit_amount } else { half }
        };
        assert(seed_deposit == seed_amount(s));
        match ledger.deposit(seed_deposit) {
            Ok(_) => {
                seeded = true;
            },
            Err(e) => {
                return ScenarioOutcome::Discarded(e);
            },
        }
    }

    // Optional donation straight into custody, bypassing the deposit path —
    // the ledger mints new underlying supply to the vault's account. When
    // the mint itself cannot absorb the donation, it is skipped.
    let mut yield_applied = 0u64;
    if yield_amount > 0 {
        if (ledger.vault_underlying as u128) + (ledger.depositor_underlying as u128)
            + (yield_amount as u128) <= (u64::MAX as u128) {
            ledger.vault_underlying = ledger.vault_underlying + yield_amount;
            yield_applied = yield_amount;
        }
    }

    assert(ledger.wf());
    assert(ledger.share_supply <= ledger.vault_underlying);
    assert(built_environment(s) == Ok::<(LedgerState, u64, bool), VaultError>(
        (ledger, yield_applied, seeded),
    ));

    let before = ledger;
    match ledger.deposit(amount) {
        Ok(minted) => {
            let after = ledger;
            let report = DepositReport {
                amount,
                yield_applied,
                seeded,
                decimals,
                before,
                after,
                shares_minted: minted,
            };
            proof {
                lemma_deposit_bounded_by_amount(before, amount, minted);
                if before.share_supply > 0 {
                    lemma_deposit_share_value_monotonic(before, amount, minted);
                    lemma_deposit_fairness_bound(before, amount, minted);
                    lemma_deposit_calculation_accuracy(before, amount, minted);
                }
            }
            if conservation_holds(before, after) && exact_transfer_holds(before, after, amount)
                && share_value_preserved(before, after) && fairness_holds(before, amount, minted)
                && minted > 0 && bootstrap_exact_holds(before, amount, minted)
                && accuracy_holds(before, amount, minted)
                && supply_accounting_holds(before, after, minted)
                && reasonable_bounds_holds(before, amount, minted) {
                ScenarioOutcome::Passed(report)
            } else {
                // Unreachable: the engine's contract and the laws above
                // prove every check true. Kept so a report of a violation
                // would carry the full before/after state.
                ScenarioOutcome::Failed(report)
            }
        },
        Err(e) => {
            if allowed_error(e) {
                ScenarioOutcome::Discarded(e)
            } else {
                // Unreachable: on this environment the engine can only
                // reject with an allow-listed error.
                ScenarioOutcome::Failed(
                    DepositReport {
                        amount,
                        yield_applied,
                        seeded,
                        decimals,
                        before,
                        after: before,
                        shares_minted: 0,
                    },
                )
            }
        },
    }
}

/// `a + b`, clamped to the largest 64-bit value.
fn saturating_add_u64(a: u64, b: u64) -> (r: u64)
    ensures
        r == saturated_add(a, b),
{
    if a > u64::MAX - b {
        u64::MAX
    } else {
        a + b
    }
}

} // verus!
