//! The ledger operations: each one a pure state transition over the
//! records, validated before it is applied.
//!
//! The surrounding runtime performs the fund movement itself and reports
//! each returned event on its notification channel; the operations here
//! only account for it. A zero amount is deliberately accepted everywhere
//! and leaves the records unchanged.

use vstd::prelude::*;

use crate::state::{
    calculate_credit_line, lemma_credit_line_monotonic, spec_available_collateral,
    spec_available_credit, spec_credit_line, vault_wf, AccountId, UserAccount, Vault,
};

verus! {

/// Why an operation was refused. Every refusal leaves the records exactly
/// as they were.
#[derive(Clone, Copy, Debug, PartialEq, Eq, Structural)]
pub enum VaultError {
    /// A vault already exists for this scope; `initialize` is not
    /// idempotent.
    AlreadyInitialized,
    /// A withdrawal asked for more than the deposit net of the credit
    /// reserve.
    InsufficientBalance,
    /// A draw asked for more than the remaining credit line.
    InsufficientCredit,
    /// A repayment exceeded the outstanding debt.
    RepaymentExceedsDebt,
    /// The custody collaborator failed to move the funds; raised by the
    /// surrounding runtime, never by the operations here.
    CustodyTransferFailed,
    /// A counter would have overflowed its machine word.
    ArithmeticOverflow,
}

/// A successful deposit, for the notification channel.
#[derive(Clone, Copy, Debug, PartialEq, Eq, Structural)]
pub struct DepositEvent {
    pub user: AccountId,
    pub amount: u64,
    /// The depositor's `deposited_amount` after the operation.
    pub total_deposited: u64,
    pub credit_line: u64,
}

/// A successful withdrawal, for the notification channel.
#[derive(Clone, Copy, Debug, PartialEq, Eq, Structural)]
pub struct WithdrawEvent {
    pub user: AccountId,
    pub amount: u64,
    pub remaining_deposited: u64,
    pub credit_line: u64,
}

/// A successful credit draw, for the notification channel.
#[derive(Clone, Copy, Debug, PartialEq, Eq, Structural)]
pub struct CreditUsedEvent {
    pub user: AccountId,
    pub amount: u64,
    pub total_used: u64,
    pub remaining_credit: u64,
}

/// A successful repayment, for the notification channel.
#[derive(Clone, Copy, Debug, PartialEq, Eq, Structural)]
pub struct CreditRepaidEvent {
    pub user: AccountId,
    pub amount: u64,
    pub remaining_debt: u64,
}

/// A user record after a deposit of `amount` at `ratio` percent: the
/// deposit grows and the credit line is recomputed; owner and drawn
/// credit are untouched.
pub open spec fn deposit_applied(u: UserAccount, ratio: u8, amount: u64) -> UserAccount {
    UserAccount {
        deposited_amount: (u.deposited_amount + amount) as u64,
        credit_line: spec_credit_line((u.deposited_amount + amount) as u64, ratio) as u64,
        ..u
    }
}

/// A user record after a withdrawal of `amount` at `ratio` percent: the
/// deposit shrinks and the credit line is recomputed; owner and drawn
/// credit are untouched.
pub open spec fn withdraw_applied(u: UserAccount, ratio: u8, amount: u64) -> UserAccount {
    UserAccount {
        deposited_amount: (u.deposited_amount - amount) as u64,
        credit_line: spec_credit_line((u.deposited_amount - amount) as u64, ratio) as u64,
        ..u
    }
}

/// Creates the one vault for a scope, administered by `caller`, with no
/// deposits yet and half of collateral value grantable as credit.
///
/// The storage collaborator reports through `vault_exists` whether a vault
/// is already recorded for the scope; a second initialization is refused,
/// not silently accepted.
pub fn initialize(caller: AccountId, vault_exists: bool) -> (r: Result<Vault, VaultError>)
    ensures
        match r {
            Ok(v) => {
                &&& !vault_exists
                &&& v == (Vault { authority: caller, total_deposited: 0, credit_ratio: 50 })
            },
            Err(e) => {
                &&& vault_exists
                &&& e == VaultError::AlreadyInitialized
            },
        },
{
    if vault_exists {
        Err(VaultError::AlreadyInitialized)
    } else {
        Ok(Vault { authority: caller, total_deposited: 0, credit_ratio: 50 })
    }
}

/// Records a deposit of `amount` by `caller`: the user's deposit and the
/// vault total grow by `amount`, the credit line is recomputed from the
/// new deposit, and the drawn credit is untouched. Refused only when a
/// counter would overflow, in which case nothing changes.
///
/// The caller must already have moved `amount` into custody; on an error
/// here it must roll that movement back, so that transfer and accounting
/// stand or fall together.
pub fn deposit(
    vault: &mut Vault,
    user: &mut UserAccount,
    amount: u64,
    caller: AccountId,
) -> (r: Result<DepositEvent, VaultError>)
    requires
        vault_wf(*old(vault)),
    ensures
        final(vault).authority == old(vault).authority,
        final(vault).credit_ratio == old(vault).credit_ratio,
        match r {
            Ok(ev) => {
                &&& old(user).deposited_amount + amount <= u64::MAX
                &&& old(vault).total_deposited + amount <= u64::MAX
                &&& *final(user) == deposit_applied(*old(user), old(vault).credit_ratio, amount)
                &&& final(vault).total_deposited == old(vault).total_deposited + amount
                &&& final(user).credit_line == spec_credit_line(
                    final(user).deposited_amount,
                    final(vault).credit_ratio,
                )
                &&& ev == (DepositEvent {
                    user: caller,
                    amount,
                    total_deposited: final(user).deposited_amount,
                    credit_line: final(user).credit_line,
                })
                &&& (old(user).credit_line == spec_credit_line(
                    old(user).deposited_amount,
                    old(vault).credit_ratio,
                ) ==> final(user).credit_line >= old(user).credit_line)
            },
            Err(e) => {
                &&& e == VaultError::ArithmeticOverflow
                &&& (old(user).deposited_amount + amount > u64::MAX
                    || old(vault).total_deposited + amount > u64::MAX)
                &&& *final(user) == *old(user)
                &&& *final(vault) == *old(vault)
            },
        },
{
    let new_deposited: u64 = match user.deposited_amount.checked_add(amount) {
        Some(v) => v,
        None => {
            return Err(VaultError::ArithmeticOverflow);
        },
    };
    let new_total: u64 = match vault.total_deposited.checked_add(amount) {
        Some(v) => v,
        None => {
            return Err(VaultError::ArithmeticOverflow);
        },
    };
    proof {
        lemma_credit_line_monotonic(user.deposited_amount, new_deposited, vault.credit_ratio);
    }
    user.deposited_amount = new_deposited;
    user.credit_line = calculate_credit_line(new_deposited, vault.credit_ratio);
    vault.total_deposited = new_total;
    Ok(DepositEvent {
        user: caller,
        amount,
        total_deposited: user.deposited_amount,
        credit_line: user.credit_line,
    })
}

/// Records a withdrawal of `amount` by `caller`. The amount must not
/// exceed the deposit net of twice the drawn credit — the reserve that
/// keeps already-drawn credit backed at the half-of-collateral ratio —
/// else the operation is refused with `InsufficientBalance` and nothing
/// changes. On success the user's deposit and the vault total shrink by
/// `amount` and the credit line is recomputed from the new deposit.
///
/// The caller moves `amount` out of custody only on success, so that
/// transfer and accounting stand or fall together. The vault aggregates
/// every record's deposit, so no single record exceeds it on entry
/// ([`crate::laws::lemma_element_le_total`]); that bound keeps the
/// aggregate from underflowing here.
pub fn withdraw(
    vault: &mut Vault,
    user: &mut UserAccount,
    amount: u64,
    caller: AccountId,
) -> (r: Result<WithdrawEvent, VaultError>)
    requires
        vault_wf(*old(vault)),
        old(user).deposited_amount <= old(vault).total_deposited,
    ensures
        final(vault).authority == old(vault).authority,
        final(vault).credit_ratio == old(vault).credit_ratio,
        match r {
            Ok(ev) => {
                &&& amount <= spec_available_collateral(*old(user))
                &&& *final(user) == withdraw_applied(*old(user), old(vault).credit_ratio, amount)
                &&& final(vault).total_deposited == old(vault).total_deposited - amount
                &&& final(user).credit_line == spec_credit_line(
                    final(user).deposited_amount,
                    final(vault).credit_ratio,
                )
                &&& ev == (WithdrawEvent {
                    user: caller,
                    amount,
                    remaining_deposited: final(user).deposited_amount,
                    credit_line: final(user).credit_line,
                })
            },
            Err(e) => {
                &&& e == VaultError::InsufficientBalance
                &&& amount > spec_available_collateral(*old(user))
                &&& *final(user) == *old(user)
                &&& *final(vault) == *old(vault)
            },
        },
{
    let reserve: u128 = 2 * (user.used_credit as u128);
    let deposited: u128 = user.deposited_amount as u128;
    let available: u128 = if deposited >= reserve {
        deposited - reserve
    } else {
        0
    };
    if (amount as u128) > available {
        return Err(VaultError::InsufficientBalance);
    }
    user.deposited_amount = user.deposited_amount - amount;
    user.credit_line = calculate_credit_line(user.deposited_amount, vault.credit_ratio);
    vault.total_deposited = vault.total_deposited - amount;
    Ok(WithdrawEvent {
        user: caller,
        amount,
        remaining_deposited: user.deposited_amount,
        credit_line: user.credit_line,
    })
}

/// Records a credit draw of `amount` by `caller`: no collateral moves,
/// only a debt is recorded. The amount must not exceed the credit line
/// net of what is already drawn, else the operation is refused with
/// `InsufficientCredit` and nothing changes. The drawn credit therefore
/// never exceeds the credit line after a successful draw.
///
/// The record must satisfy its invariant — drawn credit within the credit
/// line — on entry; every operation here preserves it, and on a record
/// that violated it the remaining credit this operation reports would be
/// negative.
pub fn use_credit(
    user: &mut UserAccount,
    amount: u64,
    caller: AccountId,
) -> (r: Result<CreditUsedEvent, VaultError>)
    requires
        old(user).used_credit <= old(user).credit_line,
    ensures
        final(user).owner == old(user).owner,
        final(user).deposited_amount == old(user).deposited_amount,
        final(user).credit_line == old(user).credit_line,
        match r {
            Ok(ev) => {
                &&& amount <= spec_available_credit(*old(user))
                &&& final(user).used_credit == old(user).used_credit + amount
                &&& final(user).used_credit <= final(user).credit_line
                &&& ev == (CreditUsedEvent {
                    user: caller,
                    amount,
                    total_used: final(user).used_credit,
                    remaining_credit: (final(user).credit_line - final(user).used_credit) as u64,
                })
            },
            Err(e) => {
                &&& e == VaultError::InsufficientCredit
                &&& amount > spec_available_credit(*old(user))
                &&& final(user).used_credit == old(user).used_credit
            },
        },
{
    let available: u64 = user.credit_line - user.used_credit;
    if amount > available {
        return Err(VaultError::InsufficientCredit);
    }
    user.used_credit = user.used_credit + amount;
    Ok(CreditUsedEvent {
        user: caller,
        amount,
        total_used: user.used_credit,
        remaining_credit: user.credit_line - user.used_credit,
    })
}

/// Records a repayment of `amount` by `caller`: no collateral moves, only
/// the debt shrinks. The amount must not exceed the outstanding debt,
/// else the operation is refused with `RepaymentExceedsDebt` and nothing
/// changes.
pub fn repay_credit(
    user: &mut UserAccount,
    amount: u64,
    caller: AccountId,
) -> (r: Result<CreditRepaidEvent, VaultError>)
    ensures
        final(user).owner == old(user).owner,
        final(user).deposited_amount == old(user).deposited_amount,
        final(user).credit_line == old(user).credit_line,
        match r {
            Ok(ev) => {
                &&& amount <= old(user).used_credit
                &&& final(user).used_credit == old(user).used_credit - amount
                &&& ev == (CreditRepaidEvent {
                    user: caller,
                    amount,
                    remaining_debt: final(user).used_credit,
                })
            },
            Err(e) => {
                &&& e == VaultError::RepaymentExceedsDebt
                &&& amount > old(user).used_credit
                &&& final(user).used_credit == old(user).used_credit
            },
        },
{
    if amount > user.used_credit {
        return Err(VaultError::RepaymentExceedsDebt);
    }
    user.used_credit = user.used_credit - amount;
    Ok(CreditRepaidEvent { user: caller, amount, remaining_debt: user.used_credit })
}

/// The participant's current credit line, read without mutation.
pub fn get_credit_line(user: &UserAccount) -> (r: u64)
    ensures
        r == user.credit_line,
{
    user.credit_line
}

} // verus!
