//! The two ledger records and the credit-line formula.

use vstd::prelude::*;

verus! {

/// Identity of a participant or of the administrator, as the surrounding
/// runtime hands it in. The ledger stores and reports identities; it never
/// looks inside one.
#[derive(Clone, Copy, Debug, PartialEq, Eq, Structural, Hash)]
pub struct AccountId {
    pub id: u64,
}

/// The one pool-wide record: who administers the pool, the sum of every
/// participant's deposit, and the percentage of collateral grantable as
/// credit.
#[derive(Clone, Copy, Debug, PartialEq, Eq, Structural)]
pub struct Vault {
    /// Administrator who initialized the vault. Immutable after creation.
    pub authority: AccountId,
    /// Sum over all user records' `deposited_amount`.
    pub total_deposited: u64,
    /// Percentage (0 to 100) of deposited collateral grantable as credit.
    pub credit_ratio: u8,
}

/// One participant's record: collateral held, the credit line derived from
/// it, and the credit currently drawn.
#[derive(Clone, Copy, Debug, PartialEq, Eq, Structural)]
pub struct UserAccount {
    /// The participant this record belongs to. Immutable after creation.
    pub owner: AccountId,
    /// Collateral currently held for this participant.
    pub deposited_amount: u64,
    /// Cached projection of `deposited_amount`: the formula
    /// `floor(deposited_amount * credit_ratio / 100)`, recomputed by every
    /// deposit and withdrawal.
    pub credit_line: u64,
    /// Credit currently drawn and unpaid.
    pub used_credit: u64,
}

/// The credit grantable against `deposited` collateral at `ratio` percent:
/// `floor(deposited * ratio / 100)`.
pub open spec fn spec_credit_line(deposited: u64, ratio: u8) -> int {
    deposited * ratio / 100
}

/// A vault is well formed when its ratio is a percentage.
pub open spec fn vault_wf(v: Vault) -> bool {
    v.credit_ratio <= 100
}

/// A user record is consistent with a vault's ratio when its cached credit
/// line equals the formula applied to its deposit.
pub open spec fn user_consistent(u: UserAccount, ratio: u8) -> bool {
    u.credit_line == spec_credit_line(u.deposited_amount, ratio)
}

/// Collateral a participant may still withdraw: the deposit net of twice
/// the drawn credit, never negative.
pub open spec fn spec_available_collateral(u: UserAccount) -> int {
    if u.deposited_amount >= 2 * u.used_credit {
        u.deposited_amount - 2 * u.used_credit
    } else {
        0
    }
}

/// Credit a participant may still draw: the line net of what is already
/// drawn, never negative.
pub open spec fn spec_available_credit(u: UserAccount) -> int {
    if u.credit_line >= u.used_credit {
        u.credit_line - u.used_credit
    } else {
        0
    }
}

/// The formula never grants more credit than the collateral behind it.
pub proof fn lemma_credit_line_bounds(deposited: u64, ratio: u8)
    requires
        ratio <= 100,
    ensures
        0 <= spec_credit_line(deposited, ratio) <= deposited,
{
    assert(0 <= deposited * ratio / 100 <= deposited) by (nonlinear_arith)
        requires
            ratio <= 100,
        ;
}

/// A larger deposit never grants a smaller credit line.
pub proof fn lemma_credit_line_monotonic(d1: u64, d2: u64, ratio: u8)
    requires
        d1 <= d2,
    ensures
        spec_credit_line(d1, ratio) <= spec_credit_line(d2, ratio),
{
    assert(d1 * ratio / 100 <= d2 * ratio / 100) by (nonlinear_arith)
        requires
            d1 <= d2,
        ;
}

/// The credit line granted against `deposited` collateral at `ratio`
/// percent, computed with a wide intermediate so the product cannot
/// overflow before truncation.
pub fn calculate_credit_line(deposited: u64, ratio: u8) -> (r: u64)
    requires
        ratio <= 100,
    ensures
        r == spec_credit_line(deposited, ratio),
{
    proof {
        lemma_credit_line_bounds(deposited, ratio);
    }
    let wide: u128 = (deposited as u128) * (ratio as u128);
    (wide / 100) as u64
}

} // verus!
