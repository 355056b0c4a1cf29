use whitelist_token_sale::custody::{
    drain_to_owner, fund, move_balance, release_to_buyer, transfer_checked,
};
use whitelist_token_sale::error::{SaleError, WhitelistError};
use whitelist_token_sale::state::{Address, Mint, TokenAccount};

fn address(tag: u8) -> Address {
    let mut bytes = [0u8; 32];
    bytes[31] = tag;
    Address::new(bytes)
}

fn account(mint: u8, owner: u8, amount: u64) -> TokenAccount {
    TokenAccount { mint: address(mint), owner: address(owner), amount }
}

fn mint(tag: u8) -> Mint {
    Mint { key: address(tag), decimals: 6 }
}

#[test]
fn addresses_compare_by_all_their_bytes() {
    let mut first = [7u8; 32];
    let a = Address::new(first);
    assert_eq!(a.bytes, first);
    assert!(a == Address::new([7u8; 32]));
    first[0] = 8;
    assert!(a != Address::new(first));
    let mut last = [7u8; 32];
    last[31] = 0;
    assert!(a != Address::new(last));
}

#[test]
fn move_balance_moves_the_whole_amount() {
    let mut from: u64 = 10;
    let mut to: u64 = 5;
    assert_eq!(move_balance(&mut from, &mut to, 4), Ok(()));
    assert_eq!((from, to), (6, 9));
    assert_eq!(move_balance(&mut from, &mut to, 6), Ok(()));
    assert_eq!((from, to), (0, 15));
}

#[test]
fn move_balance_refuses_an_amount_not_covered() {
    let mut from: u64 = 3;
    let mut to: u64 = 5;
    assert_eq!(move_balance(&mut from, &mut to, 4), Err(SaleError::InsufficientFunds));
    assert_eq!((from, to), (3, 5));
}

#[test]
fn move_balance_refuses_a_credit_out_of_range() {
    let mut from: u64 = 3;
    let mut to: u64 = u64::MAX - 1;
    assert_eq!(
        move_balance(&mut from, &mut to, 2),
        Err(SaleError::Whitelist(WhitelistError::ArithmeticOverflow))
    );
    assert_eq!((from, to), (3, u64::MAX - 1));
}

#[test]
fn transfer_checked_moves_between_accounts_of_one_mint() {
    let mut from = account(1, 2, 100);
    let mut to = account(1, 3, 1);
    assert_eq!(transfer_checked(&mut from, &mut to, &mint(1), &address(2), 40), Ok(()));
    assert_eq!(from, account(1, 2, 60));
    assert_eq!(to, account(1, 3, 41));
}

#[test]
fn transfer_checked_refuses_another_mint() {
    let mut from = account(1, 2, 100);
    let mut to = account(9, 3, 1);
    let mismatch = Err(SaleError::Whitelist(WhitelistError::MintMismatch));
    assert_eq!(transfer_checked(&mut from, &mut to, &mint(1), &address(2), 40), mismatch);
    assert_eq!(transfer_checked(&mut to, &mut from, &mint(1), &address(3), 1), mismatch);
    let mut twin = account(1, 4, 0);
    assert_eq!(transfer_checked(&mut from, &mut twin, &mint(9), &address(2), 1), mismatch);
    assert_eq!(twin, account(1, 4, 0));
    assert_eq!(from, account(1, 2, 100));
    assert_eq!(to, account(9, 3, 1));
}

#[test]
fn transfer_checked_names_the_mint_before_the_balance() {
    let mut from = account(1, 2, 0);
    let mut to = account(9, 3, 0);
    assert_eq!(
        transfer_checked(&mut from, &mut to, &mint(1), &address(2), 40),
        Err(SaleError::Whitelist(WhitelistError::MintMismatch))
    );
    let mut to = account(1, 3, 0);
    assert_eq!(
        transfer_checked(&mut from, &mut to, &mint(1), &address(2), 40),
        Err(SaleError::InsufficientFunds)
    );
}

#[test]
fn fund_fills_the_vault_from_the_source() {
    let mut vault = account(1, 2, 0);
    let mut source = account(1, 3, 50);
    assert_eq!(fund(&mut vault, &mut source, &mint(1), &address(3), 50), Ok(()));
    assert_eq!(vault.amount, 50);
    assert_eq!(source.amount, 0);
    assert_eq!(fund(&mut vault, &mut source, &mint(1), &address(3), 1), Err(SaleError::InsufficientFunds));
    assert_eq!(vault.amount, 50);
}

#[test]
fn release_to_buyer_debits_the_vault() {
    let mut vault = account(1, 2, 50);
    let mut buyer = account(1, 3, 5);
    assert_eq!(release_to_buyer(&mut vault, &mut buyer, &mint(1), &address(2), 20), Ok(()));
    assert_eq!(vault.amount, 30);
    assert_eq!(buyer.amount, 25);
    assert_eq!(
        release_to_buyer(&mut vault, &mut buyer, &mint(1), &address(2), 31),
        Err(SaleError::InsufficientFunds)
    );
    assert_eq!(vault.amount, 30);
    assert_eq!(buyer.amount, 25);
}

#[test]
fn drain_to_owner_empties_the_vault() {
    let mut vault = account(1, 2, 7_000_000);
    let mut owner = account(1, 3, 11);
    assert_eq!(drain_to_owner(&mut vault, &mut owner, &mint(1), &address(2)), Ok(7_000_000));
    assert_eq!(vault, account(1, 2, 0));
    assert_eq!(owner, account(1, 3, 7_000_011));
    assert_eq!(drain_to_owner(&mut vault, &mut owner, &mint(1), &address(2)), Ok(0));
    assert_eq!(owner.amount, 7_000_011);
}

#[test]
fn drain_to_owner_fails_as_a_whole() {
    let mut vault = account(1, 2, 2);
    let mut owner = account(1, 3, u64::MAX - 1);
    assert_eq!(
        drain_to_owner(&mut vault, &mut owner, &mint(1), &address(2)),
        Err(SaleError::Whitelist(WhitelistError::ArithmeticOverflow))
    );
    assert_eq!(vault.amount, 2);
    assert_eq!(owner.amount, u64::MAX - 1);
    let mut other = account(4, 3, 0);
    assert_eq!(
        drain_to_owner(&mut vault, &mut other, &mint(1), &address(2)),
        Err(SaleError::Whitelist(WhitelistError::MintMismatch))
    );
    assert_eq!(vault.amount, 2);
}

#[test]
fn only_the_authority_of_an_account_can_debit_it() {
    let mut vault = account(1, 2, 50);
    let mut other = account(1, 3, 5);
    let refused = Err(SaleError::Unauthorized);
    assert_eq!(transfer_checked(&mut vault, &mut other, &mint(1), &address(3), 1), refused);
    assert_eq!(release_to_buyer(&mut vault, &mut other, &mint(1), &address(3), 1), refused);
    assert_eq!(fund(&mut other, &mut vault, &mint(1), &address(3), 1), refused);
    assert_eq!(drain_to_owner(&mut vault, &mut other, &mint(1), &address(3)), Err(SaleError::Unauthorized));
    assert_eq!(vault, account(1, 2, 50));
    assert_eq!(other, account(1, 3, 5));
    // The authority is asked for before the balance.
    assert_eq!(transfer_checked(&mut vault, &mut other, &mint(1), &address(3), 51), refused);
    assert_eq!(
        transfer_checked(&mut vault, &mut other, &mint(1), &address(2), 51),
        Err(SaleError::InsufficientFunds)
    );
    // The mint is asked for before the authority.
    assert_eq!(
        transfer_checked(&mut vault, &mut other, &mint(4), &address(3), 1),
        Err(SaleError::Whitelist(WhitelistError::MintMismatch))
    );
}
