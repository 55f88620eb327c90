use stayer::cusd::{CUSD, Error};
use stayer::ledger::LedgerError;

const OWNER: u64 = 0;
const VAULT: u64 = 1;
const USER: u64 = 2;

fn setup() -> CUSD {
    CUSD::init(OWNER, VAULT)
}

#[test]
fn test_vault_lifecycle() {
    let mut token = setup();
    let new_vault = 3;

    token.mint(VAULT, USER, 1000).unwrap();
    assert_eq!(token.balance_of(USER), 1000);

    token.set_vault(OWNER, new_vault).unwrap();

    token.mint(new_vault, USER, 500).unwrap();
    assert_eq!(token.balance_of(USER), 1500);
}

#[test]
fn cusd_test_burn_success() {
    let mut token = setup();

    token.mint(VAULT, USER, 1000).unwrap();

    token.burn(VAULT, USER, 400).unwrap();

    assert_eq!(token.balance_of(USER), 600);
    assert_eq!(token.total_supply(), 600);
}

#[test]
#[should_panic]
fn cusd_test_fail_mint_unauthorized() {
    let mut token = setup();
    let hacker = 4;

    token.mint(hacker, hacker, 1000).unwrap();
}

#[test]
#[should_panic]
fn test_fail_set_vault_unauthorized() {
    let mut token = setup();
    let hacker = 4;
    let new_hacker_vault = 5;

    token.set_vault(hacker, new_hacker_vault).unwrap();
}

#[test]
fn cusd_test_metadata() {
    let token = setup();
    assert_eq!(token.name(), "Casper USD");
    assert_eq!(token.symbol(), "cUSD");
    assert_eq!(token.decimals(), 9);
    assert_eq!(token.total_supply(), 0);
}

#[test]
fn test_burn_more_than_balance() {
    let mut token = setup();
    token.mint(VAULT, USER, 100).unwrap();
    assert_eq!(token.burn(VAULT, USER, 101), Err(Error::Underflow));
    assert_eq!(token.balance_of(USER), 100);
}

#[test]
fn test_transfer() {
    let mut token = setup();
    let friend = 6;
    token.mint(VAULT, USER, 1000).unwrap();

    token.transfer(USER, friend, 300).unwrap();
    assert_eq!(token.balance_of(USER), 700);
    assert_eq!(token.balance_of(friend), 300);
    assert_eq!(token.total_supply(), 1000);

    assert_eq!(
        token.transfer(USER, friend, 701),
        Err(LedgerError::InsufficientBalance)
    );
}

#[test]
fn test_allowance_flow() {
    let mut token = setup();
    let spender = 6;
    let sink = 7;
    token.mint(VAULT, USER, 1000).unwrap();

    assert_eq!(
        token.transfer_from(spender, USER, sink, 1),
        Err(LedgerError::InsufficientAllowance)
    );

    token.approve(USER, spender, 400);
    assert_eq!(token.allowance(USER, spender), 400);

    token.transfer_from(spender, USER, sink, 250).unwrap();
    assert_eq!(token.balance_of(USER), 750);
    assert_eq!(token.balance_of(sink), 250);
    assert_eq!(token.allowance(USER, spender), 150);

    assert_eq!(
        token.transfer_from(spender, USER, sink, 151),
        Err(LedgerError::InsufficientAllowance)
    );
}

#[test]
fn test_increase_and_decrease_allowance() {
    let mut token = setup();
    let spender = 6;

    token.increase_allowance(USER, spender, 100).unwrap();
    token.increase_allowance(USER, spender, 50).unwrap();
    assert_eq!(token.allowance(USER, spender), 150);

    assert_eq!(
        token.decrease_allowance(USER, spender, 151),
        Err(Error::InsufficientAllowance)
    );
    token.decrease_allowance(USER, spender, 150).unwrap();
    assert_eq!(token.allowance(USER, spender), 0);

    token.approve(USER, spender, u128::MAX);
    assert_eq!(
        token.increase_allowance(USER, spender, 1),
        Err(Error::Overflow)
    );
}

#[test]
fn test_mint_overflow() {
    let mut token = setup();
    token.mint(VAULT, USER, u128::MAX).unwrap();
    assert_eq!(token.mint(VAULT, USER, 1), Err(Error::Overflow));
    assert_eq!(token.total_supply(), u128::MAX);
}
