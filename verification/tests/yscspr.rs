use stayer::yscspr::{Error, YSCSPR};
use stayer::ledger::LedgerError;

const OWNER: u64 = 0;
const MINTER: u64 = 1;
const USER: u64 = 2;

fn setup() -> YSCSPR {
    YSCSPR::init(OWNER, MINTER)
}

#[test]
fn test_authorization_lifecycle() {
    let mut token = setup();
    let new_contract = 3;

    // Initial authorized contract can mint
    token.mint(MINTER, USER, 1000).unwrap();
    assert_eq!(token.balance_of(USER), 1000);

    // Owner adds new authorized contract
    token.add_authorized(OWNER, new_contract).unwrap();

    // New contract can mint
    token.mint(new_contract, USER, 500).unwrap();
    assert_eq!(token.balance_of(USER), 1500);

    // Owner removes initial authorized contract
    token.remove_authorized(OWNER, MINTER).unwrap();

    // Old contract cannot mint anymore
    assert_eq!(token.is_authorized(MINTER), false);
    assert_eq!(token.mint(MINTER, USER, 1), Err(Error::Unauthorized));
}

#[test]
fn yscspr_test_burn_success() {
    let mut token = setup();

    token.mint(MINTER, USER, 1000).unwrap();

    token.burn(MINTER, USER, 400).unwrap();

    assert_eq!(token.balance_of(USER), 600);
    assert_eq!(token.total_supply(), 600);
}

#[test]
#[should_panic]
fn yscspr_test_fail_mint_unauthorized() {
    let mut token = setup();
    let hacker = 4;

    token.mint(hacker, hacker, 1000).unwrap();
}

#[test]
#[should_panic]
fn test_fail_add_authorized_by_hacker() {
    let mut token = setup();
    let hacker = 4;
    let hacker_contract = 5;

    token.add_authorized(hacker, hacker_contract).unwrap();
}

#[test]
fn yscspr_test_metadata() {
    let token = setup();
    assert_eq!(token.name(), "Yield Staked CSPR");
    assert_eq!(token.symbol(), "ySCSPR");
    assert_eq!(token.decimals(), 9);
    assert_eq!(token.total_supply(), 0);
}

#[test]
fn test_transfer_and_allowance() {
    let mut token = setup();
    let friend = 6;
    token.mint(MINTER, USER, 1000).unwrap();

    token.transfer(USER, friend, 250).unwrap();
    assert_eq!(token.balance_of(USER), 750);
    assert_eq!(token.balance_of(friend), 250);

    token.approve(USER, friend, 100);
    token.transfer_from(friend, USER, friend, 100).unwrap();
    assert_eq!(token.balance_of(friend), 350);
    assert_eq!(token.allowance(USER, friend), 0);

    assert_eq!(
        token.transfer(USER, friend, 10_000),
        Err(LedgerError::InsufficientBalance)
    );
}

#[test]
fn test_burn_unauthorized() {
    let mut token = setup();
    token.mint(MINTER, USER, 100).unwrap();
    assert_eq!(token.burn(USER, USER, 100), Err(Error::Unauthorized));
}
