//! Custody: moving base units between token accounts and lamports between
//! wallets. A transfer either moves the whole amount or changes nothing, and
//! only the authority of an account can debit it.

use vstd::prelude::*;

use crate::error::{SaleError, WhitelistError};
use crate::math::checked_add;
use crate::state::{Address, Mint, TokenAccount};

verus! {

/// Whether moving `amount` from a balance of `from` to a balance of `to`
/// succeeds, and the failure where it does not: the debited balance must cover
/// the amount, and the credited balance must still fit in 64 bits.
pub open spec fn move_outcome(from: u64, to: u64, amount: u64) -> Result<(), SaleError> {
    if from < amount {
        Err(SaleError::InsufficientFunds)
    } else if to + amount > u64::MAX {
        Err(SaleError::Whitelist(WhitelistError::ArithmeticOverflow))
    } else {
        Ok(())
    }
}

/// Whether a transfer of `amount` base units of `mint` from `from` to `to`,
/// ordered by `authority`, succeeds, and the failure where it does not. Both
/// accounts must hold `mint`; `authority` must be the one that may debit
/// `from`; then the balances decide.
pub open spec fn transfer_outcome(
    from: TokenAccount,
    to: TokenAccount,
    mint: Mint,
    authority: Address,
    amount: u64,
) -> Result<(), SaleError> {
    if !(from.mint == mint.key && to.mint == mint.key) {
        Err(SaleError::Whitelist(WhitelistError::MintMismatch))
    } else if from.owner != authority {
        Err(SaleError::Unauthorized)
    } else {
        move_outcome(from.amount, to.amount, amount)
    }
}

/// The account `account` with the balance `amount`.
pub open spec fn with_amount(account: TokenAccount, amount: int) -> TokenAccount {
    TokenAccount { amount: amount as u64, ..account }
}

/// Moves `amount` from one balance to another.
pub fn move_balance(from: &mut u64, to: &mut u64, amount: u64) -> (r: Result<(), SaleError>)
    ensures
        r == move_outcome(*old(from), *old(to), amount),
        r is Ok ==> *final(from) == *old(from) - amount && *final(to) == *old(to) + amount,
        r is Err ==> *final(from) == *old(from) && *final(to) == *old(to),
{
    if *from < amount {
        return Err(SaleError::InsufficientFunds);
    }
    match checked_add(*to, amount) {
        Ok(credited) => {
            *from = *from - amount;
            *to = credited;
            Ok(())
        },
        Err(e) => Err(SaleError::Whitelist(e)),
    }
}

/// Moves `amount` base units of `mint` from `from` to `to` on the order of
/// `authority`.
pub fn transfer_checked(
    from: &mut TokenAccount,
    to: &mut TokenAccount,
    mint: &Mint,
    authority: &Address,
    amount: u64,
) -> (r: Result<(), SaleError>)
    ensures
        r == transfer_outcome(*old(from), *old(to), *mint, *authority, amount),
        r is Ok ==> *final(from) == with_amount(*old(from), old(from).amount - amount),
        r is Ok ==> *final(to) == with_amount(*old(to), old(to).amount + amount),
        r is Err ==> *final(from) == *old(from) && *final(to) == *old(to),
{
    if !(from.mint == mint.key && to.mint == mint.key) {
        return Err(SaleError::Whitelist(WhitelistError::MintMismatch));
    }
    if from.owner != *authority {
        return Err(SaleError::Unauthorized);
    }
    move_balance(&mut from.amount, &mut to.amount, amount)
}

/// Funds `vault` with `amount` base units from `source`, on the order of
/// `authority`.
pub fn fund(
    vault: &mut TokenAccount,
    source: &mut TokenAccount,
    mint: &Mint,
    authority: &Address,
    amount: u64,
) -> (r: Result<(), SaleError>)
    ensures
        r == transfer_outcome(*old(source), *old(vault), *mint, *authority, amount),
        r is Ok ==> *final(source) == with_amount(*old(source), old(source).amount - amount),
        r is Ok ==> *final(vault) == with_amount(*old(vault), old(vault).amount + amount),
        r is Err ==> *final(source) == *old(source) && *final(vault) == *old(vault),
{
    transfer_checked(source, vault, mint, authority, amount)
}

/// Releases `amount` base units from `vault` to the account of a buyer, on
/// the order of `authority`.
pub fn release_to_buyer(
    vault: &mut TokenAccount,
    buyer: &mut TokenAccount,
    mint: &Mint,
    authority: &Address,
    amount: u64,
) -> (r: Result<(), SaleError>)
    ensures
        r == transfer_outcome(*old(vault), *old(buyer), *mint, *authority, amount),
        r is Ok ==> *final(vault) == with_amount(*old(vault), old(vault).amount - amount),
        r is Ok ==> *final(buyer) == with_amount(*old(buyer), old(buyer).amount + amount),
        r is Err ==> *final(vault) == *old(vault) && *final(buyer) == *old(buyer),
{
    transfer_checked(vault, buyer, mint, authority, amount)
}

/// Moves all that `vault` holds to the account of the owner, on the order of
/// `authority`, and returns the amount moved: exactly the balance that the
/// vault held.
pub fn drain_to_owner(
    vault: &mut TokenAccount,
    owner: &mut TokenAccount,
    mint: &Mint,
    authority: &Address,
) -> (r: Result<u64, SaleError>)
    ensures
        r == (match transfer_outcome(
            *old(vault),
            *old(owner),
            *mint,
            *authority,
            old(vault).amount,
        ) {
            Ok(_) => Ok(old(vault).amount),
            Err(e) => Err(e),
        }),
        r is Ok ==> *final(vault) == with_amount(*old(vault), 0),
        r is Ok ==> *final(owner) == with_amount(*old(owner), old(owner).amount + old(vault).amount),
        r is Err ==> *final(vault) == *old(vault) && *final(owner) == *old(owner),
{
    let balance: u64 = vault.amount;
    match transfer_checked(vault, owner, mint, authority, balance) {
        Ok(_) => Ok(balance),
        Err(e) => Err(e),
    }
}

} // verus!
