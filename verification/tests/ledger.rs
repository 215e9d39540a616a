use contracts_ink_erc20::ContractsInkErc20;
use contracts_ink_erc20::Error;

#[test]
fn new_works() {
    let contract = ContractsInkErc20::new(2022, 1);
    assert_eq!(contract.total_supply(), 2022);
}

#[test]
fn balance_works() {
    let contract = ContractsInkErc20::new(100, 1);
    assert_eq!(contract.total_supply(), 100);
    assert_eq!(contract.balance_of(1), 100);
    assert_eq!(contract.balance_of(0), 0);
}

#[test]
fn transfer_works() {
    let mut contract = ContractsInkErc20::new(100, 1);
    assert_eq!(contract.balance_of(1), 100);
    assert_eq!(contract.transfer(1, 0, 10), Ok(()));
    assert_eq!(contract.balance_of(0), 10);
    assert_eq!(contract.transfer(1, 0, 100), Err(Error::InsufficientBalance));
}

#[test]
fn transfer_from_works() {
    let mut contract = ContractsInkErc20::new(100, 1);
    assert_eq!(contract.balance_of(1), 100);
    assert_eq!(contract.approve(1, 1, 20), Ok(()));
    assert_eq!(contract.transfer_from(1, 1, 0, 10), Ok(()));
    assert_eq!(contract.balance_of(0), 10);
    assert_eq!(contract.transfer_from(1, 1, 0, 200), Err(Error::InsufficientApproval));
}

#[test]
fn allowances_works() {
    let mut contract = ContractsInkErc20::new(100, 1);
    assert_eq!(contract.balance_of(1), 100);
    assert_eq!(contract.approve(1, 1, 200), Ok(()));
    assert_eq!(contract.allowance(1, 1), 200);

    assert_eq!(contract.transfer_from(1, 1, 0, 50), Ok(()));
    assert_eq!(contract.balance_of(0), 50);
    assert_eq!(contract.allowance(1, 1), 150);

    assert_eq!(contract.transfer_from(1, 1, 0, 100), Err(Error::InsufficientBalance));
    assert_eq!(contract.balance_of(0), 50);
    assert_eq!(contract.allowance(1, 1), 150);
}
