//! Closure: the owner takes back what is left in the vault and the sale's
//! record is retired.

use vstd::prelude::*;

use crate::custody::{drain_to_owner, move_balance, move_outcome, transfer_outcome};
use crate::error::SaleError;
use crate::state::{Address, Mint, Signer, TokenAccount, WhitelistSale};

verus! {

/// The accounts of a closure.
#[derive(Clone, Copy, Debug, PartialEq, Eq)]
pub struct CloseWhitelistSale {
    /// The place of the sale's record: filled before, empty after.
    pub sale: Option<WhitelistSale>,
    /// The address of the sale, in whose name its vault is debited.
    pub sale_key: Address,
    /// The lamports that the sale holds.
    pub sale_lamports: u64,
    /// The vault of the sale.
    pub vault_ata: TokenAccount,
    /// The caller.
    pub signer: Signer,
    /// The token that was sold.
    pub token_mint: Mint,
    /// The caller's token account, which receives what the vault holds.
    pub signer_ata: TokenAccount,
}

/// The result of a closure on the accounts `ctx`, which hold the sale `sale`:
/// the base units drained from the vault, or the failure. The caller must be
/// the owner; then the whole balance of the vault, debited in the name of the
/// sale, must move to the caller's token account, and the sale's lamports to
/// the caller.
pub open spec fn closure_outcome(ctx: CloseWhitelistSale, sale: WhitelistSale) -> Result<
    u64,
    SaleError,
> {
    match sale.owner_check(ctx.signer.key) {
        Err(e) => Err(SaleError::Whitelist(e)),
        Ok(_) => match transfer_outcome(
            ctx.vault_ata,
            ctx.signer_ata,
            ctx.token_mint,
            ctx.sale_key,
            ctx.vault_ata.amount,
        ) {
            Err(e) => Err(e),
            Ok(_) => match move_outcome(ctx.sale_lamports, ctx.signer.lamports, ctx.sale_lamports) {
                Err(e) => Err(e),
                Ok(_) => Ok(ctx.vault_ata.amount),
            },
        },
    }
}

/// The accounts after a closure: the record is gone, the vault and the sale
/// hold nothing, and what they held has gone to the caller.
pub open spec fn after_closure(ctx: CloseWhitelistSale) -> CloseWhitelistSale {
    CloseWhitelistSale {
        sale: None,
        sale_key: ctx.sale_key,
        sale_lamports: 0,
        vault_ata: TokenAccount { amount: 0, ..ctx.vault_ata },
        signer: Signer {
            lamports: (ctx.signer.lamports + ctx.sale_lamports) as u64,
            ..ctx.signer
        },
        token_mint: ctx.token_mint,
        signer_ata: TokenAccount {
            amount: (ctx.signer_ata.amount + ctx.vault_ata.amount) as u64,
            ..ctx.signer_ata
        },
    }
}

/// Closes the sale for its owner. Returns the base units drained, which are
/// exactly the balance that the vault held. On failure the record stays and
/// the accounts are unchanged.
pub fn handle_close_whitelist_sale(ctx: &mut CloseWhitelistSale) -> (r: Result<u64, SaleError>)
    requires
        old(ctx).sale is Some,
    ensures
        r == closure_outcome(*old(ctx), old(ctx).sale->Some_0),
        r is Ok ==> *final(ctx) == after_closure(*old(ctx)),
        r is Ok ==> r->Ok_0 == old(ctx).vault_ata.amount,
        r is Ok ==> final(ctx).sale is None,
        r is Err ==> *final(ctx) == *old(ctx),
{
    let sale: WhitelistSale = ctx.sale.unwrap();
    match sale.require_owner(&ctx.signer.key) {
        Ok(_) => {},
        Err(e) => {
            return Err(SaleError::Whitelist(e));
        },
    }
    let mut staged: CloseWhitelistSale = *ctx;
    let mint: Mint = staged.token_mint;
    let sale_key: Address = staged.sale_key;
    let drained: u64 = match drain_to_owner(
        &mut staged.vault_ata,
        &mut staged.signer_ata,
        &mint,
        &sale_key,
    ) {
        Ok(v) => v,
        Err(e) => {
            return Err(e);
        },
    };
    let reclaimed: u64 = staged.sale_lamports;
    match move_balance(&mut staged.sale_lamports, &mut staged.signer.lamports, reclaimed) {
        Ok(_) => {},
        Err(e) => {
            return Err(e);
        },
    }
    staged.sale = None;
    *ctx = staged;
    Ok(drained)
}

} // verus!
