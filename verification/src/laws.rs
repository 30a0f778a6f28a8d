//! Ledger-wide laws proved of the operations.
//!
//! The operations in [`crate::engine`] touch one vault and one user record
//! at a time. The lemmas here state what those single-record contracts
//! mean for the whole ledger — the vault aggregate against the sum over
//! every user record — and how the operations compose.

use vstd::prelude::*;

use crate::engine::{deposit_applied, withdraw_applied};
use crate::state::{
    lemma_credit_line_bounds, spec_available_collateral, spec_credit_line, user_consistent,
    UserAccount, Vault,
};

verus! {

/// The collateral held across a sequence of user records, as a sum.
pub open spec fn total_deposits(users: Seq<UserAccount>) -> int
    decreases users.len(),
{
    if users.len() == 0 {
        0
    } else {
        total_deposits(users.drop_last()) + users.last().deposited_amount
    }
}

/// The vault's aggregate equals the collateral held across the user
/// records. Every deposit and withdrawal must keep this.
pub open spec fn vault_total_consistent(v: Vault, users: Seq<UserAccount>) -> bool {
    v.total_deposited == total_deposits(users)
}

/// The sum of deposits never falls below zero: each record's deposit is a
/// machine word, so the sum only accumulates non-negative terms.
pub proof fn lemma_total_deposits_nonneg(users: Seq<UserAccount>)
    ensures
        total_deposits(users) >= 0,
    decreases users.len(),
{
    if users.len() > 0 {
        lemma_total_deposits_nonneg(users.drop_last());
    }
}

/// No single record holds more collateral than the sum over all records.
/// With the vault aggregate equal to that sum, one user's withdrawal can
/// therefore never drive the aggregate below zero.
pub proof fn lemma_element_le_total(users: Seq<UserAccount>, i: int)
    requires
        0 <= i < users.len(),
    ensures
        users[i].deposited_amount <= total_deposits(users),
    decreases users.len(),
{
    if i == users.len() - 1 {
        lemma_total_deposits_nonneg(users.drop_last());
    } else {
        lemma_element_le_total(users.drop_last(), i);
    }
}

/// Replacing one record changes the sum exactly by the change in that
/// record's deposit.
proof fn lemma_total_deposits_update(users: Seq<UserAccount>, i: int, u: UserAccount)
    requires
        0 <= i < users.len(),
    ensures
        total_deposits(users.update(i, u)) == total_deposits(users)
            - users[i].deposited_amount + u.deposited_amount,
    decreases users.len(),
{
    let updated = users.update(i, u);
    if i == users.len() - 1 {
        assert(updated.drop_last() =~= users.drop_last());
        assert(updated.last() == u);
    } else {
        assert(updated.drop_last() =~= users.drop_last().update(i, u));
        lemma_total_deposits_update(users.drop_last(), i, u);
        assert(updated.last() == users.last());
    }
}

/// A deposit on one user's record keeps the vault aggregate equal to the
/// sum of all records' deposits: both sides grow by the amount.
pub proof fn lemma_deposit_preserves_vault_total(
    v: Vault,
    users: Seq<UserAccount>,
    i: int,
    ratio: u8,
    amount: u64,
    v2: Vault,
)
    requires
        vault_total_consistent(v, users),
        0 <= i < users.len(),
        users[i].deposited_amount + amount <= u64::MAX,
        v2.total_deposited == v.total_deposited + amount,
    ensures
        vault_total_consistent(v2, users.update(i, deposit_applied(users[i], ratio, amount))),
{
    lemma_total_deposits_update(users, i, deposit_applied(users[i], ratio, amount));
}

/// A withdrawal from one user's record keeps the vault aggregate equal to
/// the sum of all records' deposits: both sides shrink by the amount.
pub proof fn lemma_withdraw_preserves_vault_total(
    v: Vault,
    users: Seq<UserAccount>,
    i: int,
    ratio: u8,
    amount: u64,
    v2: Vault,
)
    requires
        vault_total_consistent(v, users),
        0 <= i < users.len(),
        amount <= users[i].deposited_amount,
        v2.total_deposited == v.total_deposited - amount,
    ensures
        vault_total_consistent(v2, users.update(i, withdraw_applied(users[i], ratio, amount))),
{
    lemma_total_deposits_update(users, i, withdraw_applied(users[i], ratio, amount));
}

/// Round trip: depositing an amount and then withdrawing the same amount,
/// with no credit drawn in between, restores the user record exactly —
/// deposit, credit line, drawn credit and owner all as before. The
/// intervening deposit always leaves enough withdrawable collateral for
/// the withdrawal to be permitted.
pub proof fn lemma_deposit_withdraw_round_trip(u: UserAccount, ratio: u8, amount: u64)
    requires
        ratio <= 100,
        user_consistent(u, ratio),
        2 * u.used_credit <= u.deposited_amount,
        u.deposited_amount + amount <= u64::MAX,
    ensures
        amount <= spec_available_collateral(deposit_applied(u, ratio, amount)),
        withdraw_applied(deposit_applied(u, ratio, amount), ratio, amount) == u,
{
    let grown = deposit_applied(u, ratio, amount);
    lemma_credit_line_bounds((u.deposited_amount + amount) as u64, ratio);
    assert(grown.deposited_amount == u.deposited_amount + amount);
    let restored = withdraw_applied(grown, ratio, amount);
    lemma_credit_line_bounds(u.deposited_amount, ratio);
    assert(restored.deposited_amount == u.deposited_amount);
    assert(restored.credit_line == spec_credit_line(u.deposited_amount, ratio));
}

/// At the half-of-collateral ratio the credit line is half the deposit,
/// so any drawn credit within the line keeps the withdrawal reserve
/// covered: twice the drawn credit never exceeds the deposit.
pub proof fn lemma_draw_keeps_reserve(u: UserAccount, new_used: u64)
    requires
        user_consistent(u, 50),
        new_used <= u.credit_line,
    ensures
        2 * new_used <= u.deposited_amount,
{
    assert(2 * (u.deposited_amount * 50 / 100) <= u.deposited_amount) by (nonlinear_arith);
}

} // verus!
