use solux_vault::engine::{
    deposit, get_credit_line, initialize, repay_credit, use_credit, withdraw, CreditRepaidEvent,
    CreditUsedEvent, DepositEvent, VaultError, WithdrawEvent,
};
use solux_vault::state::{calculate_credit_line, AccountId, UserAccount, Vault};

fn fresh_user(id: u64) -> UserAccount {
    UserAccount { owner: AccountId { id }, deposited_amount: 0, credit_line: 0, used_credit: 0 }
}

#[test]
fn initialize_creates_vault() {
    let admin = AccountId { id: 7 };
    let vault = initialize(admin, false).unwrap();
    assert_eq!(vault.authority, admin);
    assert_eq!(vault.total_deposited, 0);
    assert_eq!(vault.credit_ratio, 50);
}

#[test]
fn initialize_twice_is_refused() {
    let admin = AccountId { id: 7 };
    let second = initialize(admin, true);
    assert_eq!(second, Err(VaultError::AlreadyInitialized));
}

#[test]
fn credit_line_formula_exact_values() {
    assert_eq!(calculate_credit_line(0, 50), 0);
    assert_eq!(calculate_credit_line(1000, 50), 500);
    assert_eq!(calculate_credit_line(999, 50), 499);
    assert_eq!(calculate_credit_line(1, 50), 0);
    assert_eq!(calculate_credit_line(100, 0), 0);
    assert_eq!(calculate_credit_line(100, 100), 100);
    assert_eq!(calculate_credit_line(u64::MAX, 50), u64::MAX / 2);
    assert_eq!(calculate_credit_line(u64::MAX, 100), u64::MAX);
}

#[test]
fn deposit_updates_records_and_reports() {
    let admin = AccountId { id: 1 };
    let alice = AccountId { id: 2 };
    let mut vault = initialize(admin, false).unwrap();
    let mut user = fresh_user(2);
    let event = deposit(&mut vault, &mut user, 1000, alice).unwrap();
    assert_eq!(user.deposited_amount, 1000);
    assert_eq!(user.credit_line, 500);
    assert_eq!(user.used_credit, 0);
    assert_eq!(vault.total_deposited, 1000);
    assert_eq!(
        event,
        DepositEvent { user: alice, amount: 1000, total_deposited: 1000, credit_line: 500 }
    );
}

#[test]
fn deposit_overflow_is_refused_and_changes_nothing() {
    let alice = AccountId { id: 2 };
    let mut vault = Vault { authority: AccountId { id: 1 }, total_deposited: u64::MAX, credit_ratio: 50 };
    let mut user = UserAccount {
        owner: alice,
        deposited_amount: u64::MAX,
        credit_line: u64::MAX / 2,
        used_credit: 0,
    };
    let refused = deposit(&mut vault, &mut user, 1, alice);
    assert_eq!(refused, Err(VaultError::ArithmeticOverflow));
    assert_eq!(user.deposited_amount, u64::MAX);
    assert_eq!(user.credit_line, u64::MAX / 2);
    assert_eq!(vault.total_deposited, u64::MAX);
}

#[test]
fn vault_total_overflow_is_refused_and_changes_nothing() {
    let alice = AccountId { id: 2 };
    let mut vault = Vault { authority: AccountId { id: 1 }, total_deposited: u64::MAX - 5, credit_ratio: 50 };
    let mut user = fresh_user(2);
    let refused = deposit(&mut vault, &mut user, 10, alice);
    assert_eq!(refused, Err(VaultError::ArithmeticOverflow));
    assert_eq!(user.deposited_amount, 0);
    assert_eq!(user.credit_line, 0);
    assert_eq!(vault.total_deposited, u64::MAX - 5);
}

#[test]
fn withdraw_up_to_available_succeeds() {
    let alice = AccountId { id: 2 };
    let mut vault = initialize(AccountId { id: 1 }, false).unwrap();
    let mut user = fresh_user(2);
    deposit(&mut vault, &mut user, 1000, alice).unwrap();
    use_credit(&mut user, 300, alice).unwrap();
    // available = 1000 - 2 * 300 = 400
    let event = withdraw(&mut vault, &mut user, 400, alice).unwrap();
    assert_eq!(user.deposited_amount, 600);
    assert_eq!(user.credit_line, 300);
    assert_eq!(vault.total_deposited, 600);
    assert_eq!(
        event,
        WithdrawEvent { user: alice, amount: 400, remaining_deposited: 600, credit_line: 300 }
    );
}

#[test]
fn withdraw_beyond_available_is_refused_and_changes_nothing() {
    let alice = AccountId { id: 2 };
    let mut vault = initialize(AccountId { id: 1 }, false).unwrap();
    let mut user = fresh_user(2);
    deposit(&mut vault, &mut user, 1000, alice).unwrap();
    use_credit(&mut user, 300, alice).unwrap();
    let refused = withdraw(&mut vault, &mut user, 401, alice);
    assert_eq!(refused, Err(VaultError::InsufficientBalance));
    assert_eq!(user.deposited_amount, 1000);
    assert_eq!(user.credit_line, 500);
    assert_eq!(user.used_credit, 300);
    assert_eq!(vault.total_deposited, 1000);
}

#[test]
fn use_credit_records_debt_and_reports() {
    let alice = AccountId { id: 2 };
    let mut vault = initialize(AccountId { id: 1 }, false).unwrap();
    let mut user = fresh_user(2);
    deposit(&mut vault, &mut user, 1000, alice).unwrap();
    let event = use_credit(&mut user, 300, alice).unwrap();
    assert_eq!(user.used_credit, 300);
    assert_eq!(user.deposited_amount, 1000);
    assert_eq!(user.credit_line, 500);
    assert!(user.used_credit <= user.credit_line);
    assert_eq!(
        event,
        CreditUsedEvent { user: alice, amount: 300, total_used: 300, remaining_credit: 200 }
    );
}

#[test]
fn use_credit_up_to_line_succeeds() {
    let alice = AccountId { id: 2 };
    let mut vault = initialize(AccountId { id: 1 }, false).unwrap();
    let mut user = fresh_user(2);
    deposit(&mut vault, &mut user, 1000, alice).unwrap();
    use_credit(&mut user, 500, alice).unwrap();
    assert_eq!(user.used_credit, 500);
    assert!(user.used_credit <= user.credit_line);
}

#[test]
fn use_credit_beyond_line_is_refused_and_changes_nothing() {
    let alice = AccountId { id: 2 };
    let mut vault = initialize(AccountId { id: 1 }, false).unwrap();
    let mut user = fresh_user(2);
    deposit(&mut vault, &mut user, 1000, alice).unwrap();
    use_credit(&mut user, 300, alice).unwrap();
    // remaining credit = 500 - 300 = 200
    let refused = use_credit(&mut user, 201, alice);
    assert_eq!(refused, Err(VaultError::InsufficientCredit));
    assert_eq!(user.used_credit, 300);
    assert_eq!(user.credit_line, 500);
}

#[test]
fn repay_credit_clears_debt_and_reports() {
    let alice = AccountId { id: 2 };
    let mut vault = initialize(AccountId { id: 1 }, false).unwrap();
    let mut user = fresh_user(2);
    deposit(&mut vault, &mut user, 1000, alice).unwrap();
    use_credit(&mut user, 300, alice).unwrap();
    let event = repay_credit(&mut user, 120, alice).unwrap();
    assert_eq!(user.used_credit, 180);
    assert_eq!(event, CreditRepaidEvent { user: alice, amount: 120, remaining_debt: 180 });
    repay_credit(&mut user, 180, alice).unwrap();
    assert_eq!(user.used_credit, 0);
}

#[test]
fn repay_beyond_debt_is_refused_and_changes_nothing() {
    let alice = AccountId { id: 2 };
    let mut vault = initialize(AccountId { id: 1 }, false).unwrap();
    let mut user = fresh_user(2);
    deposit(&mut vault, &mut user, 1000, alice).unwrap();
    use_credit(&mut user, 300, alice).unwrap();
    let refused = repay_credit(&mut user, 301, alice);
    assert_eq!(refused, Err(VaultError::RepaymentExceedsDebt));
    assert_eq!(user.used_credit, 300);
}

#[test]
fn deposit_then_withdraw_restores_the_record() {
    let alice = AccountId { id: 2 };
    let mut vault = initialize(AccountId { id: 1 }, false).unwrap();
    let mut user = fresh_user(2);
    deposit(&mut vault, &mut user, 750, alice).unwrap();
    use_credit(&mut user, 100, alice).unwrap();
    let before = user;
    let vault_before = vault;
    deposit(&mut vault, &mut user, 333, alice).unwrap();
    withdraw(&mut vault, &mut user, 333, alice).unwrap();
    assert_eq!(user, before);
    assert_eq!(vault, vault_before);
}

#[test]
fn zero_amounts_are_accepted_as_no_ops() {
    let alice = AccountId { id: 2 };
    let mut vault = initialize(AccountId { id: 1 }, false).unwrap();
    let mut user = fresh_user(2);
    deposit(&mut vault, &mut user, 1000, alice).unwrap();
    let before = user;
    deposit(&mut vault, &mut user, 0, alice).unwrap();
    withdraw(&mut vault, &mut user, 0, alice).unwrap();
    use_credit(&mut user, 0, alice).unwrap();
    repay_credit(&mut user, 0, alice).unwrap();
    assert_eq!(user, before);
    assert_eq!(vault.total_deposited, 1000);
}

#[test]
fn vault_total_tracks_the_sum_over_users() {
    let admin = AccountId { id: 1 };
    let alice = AccountId { id: 2 };
    let bob = AccountId { id: 3 };
    let mut vault = initialize(admin, false).unwrap();
    let mut first = fresh_user(2);
    let mut second = fresh_user(3);
    deposit(&mut vault, &mut first, 1000, alice).unwrap();
    deposit(&mut vault, &mut second, 250, bob).unwrap();
    assert_eq!(vault.total_deposited, first.deposited_amount + second.deposited_amount);
    withdraw(&mut vault, &mut first, 400, alice).unwrap();
    assert_eq!(vault.total_deposited, first.deposited_amount + second.deposited_amount);
    withdraw(&mut vault, &mut second, 250, bob).unwrap();
    assert_eq!(vault.total_deposited, first.deposited_amount + second.deposited_amount);
    assert_eq!(vault.total_deposited, 600);
}

#[test]
fn full_cycle_scenario() {
    let admin = AccountId { id: 1 };
    let alice = AccountId { id: 2 };
    let mut vault = initialize(admin, false).unwrap();
    assert_eq!(vault.credit_ratio, 50);
    let mut user = fresh_user(2);

    deposit(&mut vault, &mut user, 1000, alice).unwrap();
    assert_eq!(user.deposited_amount, 1000);
    assert_eq!(user.credit_line, 500);

    let drawn = use_credit(&mut user, 300, alice).unwrap();
    assert_eq!(user.used_credit, 300);
    assert_eq!(drawn.remaining_credit, 200);

    // available = 1000 - 2 * 300 = 400 < 500
    let refused = withdraw(&mut vault, &mut user, 500, alice);
    assert_eq!(refused, Err(VaultError::InsufficientBalance));

    withdraw(&mut vault, &mut user, 400, alice).unwrap();
    assert_eq!(user.deposited_amount, 600);
    assert_eq!(user.credit_line, 300);

    repay_credit(&mut user, 300, alice).unwrap();
    assert_eq!(user.used_credit, 0);
}

#[test]
fn get_credit_line_reads_the_record() {
    let alice = AccountId { id: 2 };
    let mut vault = initialize(AccountId { id: 1 }, false).unwrap();
    let mut user = fresh_user(2);
    deposit(&mut vault, &mut user, 820, alice).unwrap();
    assert_eq!(get_credit_line(&user), 410);
}
