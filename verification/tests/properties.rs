use contracts_ink_erc20::Approval;
use contracts_ink_erc20::ContractsInkErc20;
use contracts_ink_erc20::Error;
use contracts_ink_erc20::Event;
use contracts_ink_erc20::Transfer;

#[test]
fn creation_credits_whole_supply() {
    let contract = ContractsInkErc20::new(2022, 7);
    assert_eq!(contract.total_supply(), 2022);
    assert_eq!(contract.balance_of(7), 2022);
}

#[test]
fn creation_emits_mint_notification() {
    let contract = ContractsInkErc20::new(2022, 7);
    assert_eq!(contract.events().len(), 1);
    assert_eq!(
        contract.events()[0],
        Event::Transfer(Transfer { from: None, to: Some(7), amount: 2022 })
    );
}

#[test]
fn zero_supply_is_acceptable() {
    let contract = ContractsInkErc20::new(0, 1);
    assert_eq!(contract.total_supply(), 0);
    assert_eq!(contract.balance_of(1), 0);
}

#[test]
fn untouched_accounts_and_pairs_read_zero() {
    let mut contract = ContractsInkErc20::new(100, 1);
    assert_eq!(contract.transfer(1, 2, 30), Ok(()));
    assert_eq!(contract.approve(1, 2, 5), Ok(()));
    assert_eq!(contract.balance_of(99), 0);
    assert_eq!(contract.allowance(1, 99), 0);
    assert_eq!(contract.allowance(2, 1), 0);
    assert_eq!(contract.allowance(99, 98), 0);
}

#[test]
fn queries_are_idempotent() {
    let mut contract = ContractsInkErc20::new(100, 1);
    assert_eq!(contract.transfer(1, 0, 10), Ok(()));
    assert_eq!(contract.approve(1, 2, 5), Ok(()));
    assert_eq!(contract.total_supply(), contract.total_supply());
    assert_eq!(contract.balance_of(0), contract.balance_of(0));
    assert_eq!(contract.balance_of(1), contract.balance_of(1));
    assert_eq!(contract.allowance(1, 2), contract.allowance(1, 2));
}

#[test]
fn approve_overwrites_not_accumulates() {
    let mut contract = ContractsInkErc20::new(100, 1);
    assert_eq!(contract.approve(1, 2, 10), Ok(()));
    assert_eq!(contract.allowance(1, 2), 10);
    assert_eq!(contract.approve(1, 2, 5), Ok(()));
    assert_eq!(contract.allowance(1, 2), 5);
    assert_eq!(contract.approve(1, 2, 0), Ok(()));
    assert_eq!(contract.allowance(1, 2), 0);
}

#[test]
fn approve_emits_approval_notification() {
    let mut contract = ContractsInkErc20::new(100, 1);
    assert_eq!(contract.approve(1, 2, 10), Ok(()));
    assert_eq!(contract.events().len(), 2);
    assert_eq!(
        contract.events()[1],
        Event::Approval(Approval { owner: 1, spender: 2, amount: 10 })
    );
}

#[test]
fn transfer_moves_exact_amount() {
    let mut contract = ContractsInkErc20::new(100, 1);
    assert_eq!(contract.transfer(1, 0, 10), Ok(()));
    assert_eq!(contract.balance_of(0), 10);
    assert_eq!(contract.balance_of(1), 90);
    assert_eq!(
        contract.events()[1],
        Event::Transfer(Transfer { from: Some(1), to: Some(0), amount: 10 })
    );
}

#[test]
fn transfer_of_whole_balance_empties_account() {
    let mut contract = ContractsInkErc20::new(100, 1);
    assert_eq!(contract.transfer(1, 2, 100), Ok(()));
    assert_eq!(contract.balance_of(1), 0);
    assert_eq!(contract.balance_of(2), 100);
}

#[test]
fn transfer_of_zero_succeeds_and_notifies() {
    let mut contract = ContractsInkErc20::new(100, 1);
    assert_eq!(contract.transfer(1, 0, 0), Ok(()));
    assert_eq!(contract.balance_of(0), 0);
    assert_eq!(contract.balance_of(1), 100);
    assert_eq!(contract.events().len(), 2);
}

#[test]
fn insufficient_balance_changes_nothing() {
    let mut contract = ContractsInkErc20::new(100, 1);
    assert_eq!(contract.transfer(1, 0, 101), Err(Error::InsufficientBalance));
    assert_eq!(contract.balance_of(0), 0);
    assert_eq!(contract.balance_of(1), 100);
    assert_eq!(contract.events().len(), 1);
}

#[test]
fn self_transfer_keeps_balance_and_notifies() {
    let mut contract = ContractsInkErc20::new(100, 1);
    assert_eq!(contract.transfer(1, 1, 30), Ok(()));
    assert_eq!(contract.balance_of(1), 100);
    assert_eq!(contract.events().len(), 2);
    assert_eq!(
        contract.events()[1],
        Event::Transfer(Transfer { from: Some(1), to: Some(1), amount: 30 })
    );
}

#[test]
fn transfer_from_consumes_allowance() {
    let mut contract = ContractsInkErc20::new(100, 1);
    assert_eq!(contract.approve(1, 3, 40), Ok(()));
    assert_eq!(contract.transfer_from(3, 1, 2, 15), Ok(()));
    assert_eq!(contract.balance_of(1), 85);
    assert_eq!(contract.balance_of(2), 15);
    assert_eq!(contract.allowance(1, 3), 25);
    assert_eq!(
        contract.events()[2],
        Event::Transfer(Transfer { from: Some(1), to: Some(2), amount: 15 })
    );
}

#[test]
fn owner_can_spend_through_own_allowance() {
    let mut contract = ContractsInkErc20::new(100, 1);
    assert_eq!(contract.approve(1, 1, 20), Ok(()));
    assert_eq!(contract.transfer_from(1, 1, 0, 10), Ok(()));
    assert_eq!(contract.balance_of(0), 10);
    assert_eq!(contract.allowance(1, 1), 10);
    assert_eq!(contract.transfer_from(1, 1, 0, 200), Err(Error::InsufficientApproval));
    assert_eq!(contract.balance_of(0), 10);
    assert_eq!(contract.balance_of(1), 90);
    assert_eq!(contract.allowance(1, 1), 10);
}

#[test]
fn insufficient_approval_changes_nothing() {
    let mut contract = ContractsInkErc20::new(100, 1);
    assert_eq!(contract.approve(1, 3, 40), Ok(()));
    assert_eq!(contract.transfer_from(3, 1, 2, 41), Err(Error::InsufficientApproval));
    assert_eq!(contract.allowance(1, 3), 40);
    assert_eq!(contract.balance_of(1), 100);
    assert_eq!(contract.balance_of(2), 0);
    assert_eq!(contract.events().len(), 2);
}

#[test]
fn failed_balance_check_leaves_allowance_untouched() {
    let mut contract = ContractsInkErc20::new(100, 1);
    assert_eq!(contract.approve(1, 3, 500), Ok(()));
    assert_eq!(contract.transfer_from(3, 1, 2, 200), Err(Error::InsufficientBalance));
    assert_eq!(contract.allowance(1, 3), 500);
    assert_eq!(contract.balance_of(1), 100);
    assert_eq!(contract.balance_of(2), 0);
}

#[test]
fn balances_always_sum_to_supply() {
    let mut contract = ContractsInkErc20::new(100, 1);
    assert_eq!(contract.transfer(1, 2, 30), Ok(()));
    assert_eq!(contract.approve(1, 3, 40), Ok(()));
    assert_eq!(contract.transfer_from(3, 1, 4, 15), Ok(()));
    assert_eq!(contract.transfer(2, 5, 7), Ok(()));
    let mut sum: u128 = 0;
    for account in 0..6u64 {
        sum += contract.balance_of(account);
    }
    assert_eq!(sum, contract.total_supply());
}
