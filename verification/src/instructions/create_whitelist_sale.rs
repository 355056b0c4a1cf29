//! Creation: the signer becomes the owner of a new sale and funds its vault
//! with the whole inventory.

use vstd::prelude::*;

use crate::custody::{fund, transfer_outcome};
use crate::error::SaleError;
use crate::math::{checked, checked_mul, scale_by_decimals, scaled};
use crate::state::{Address, Mint, Signer, TokenAccount, WhitelistSale};

verus! {

/// The accounts of a creation.
#[derive(Clone, Copy, Debug, PartialEq, Eq)]
pub struct CreateWhitelistSale {
    /// The place of the sale's record: empty before, filled after.
    pub sale: Option<WhitelistSale>,
    /// The address of the sale, which is to control the vault.
    pub sale_key: Address,
    /// The creator.
    pub signer: Signer,
    /// The token that is sold.
    pub token_mint: Mint,
    /// The vault of the sale.
    pub vault_ata: TokenAccount,
    /// The creator's token account, which funds the vault.
    pub signer_ata: TokenAccount,
}

/// The result of a creation on the accounts `ctx`: the base units that fund
/// the vault, or the failure. The vault must be under the authority of the
/// sale. The number of whole tokens for sale must fit in 64 bits, then its
/// amount in base units, and then the creator must be able to hand that amount
/// from their own account to the vault.
pub open spec fn creation_outcome(
    ctx: CreateWhitelistSale,
    max_tokens_per_buyer: u64,
    max_buyers: u64,
) -> Result<u64, SaleError> {
    if ctx.vault_ata.owner != ctx.sale_key {
        Err(SaleError::Unauthorized)
    } else {
        match checked(max_buyers * max_tokens_per_buyer) {
            Err(e) => Err(SaleError::Whitelist(e)),
            Ok(whole) => match scaled(whole, ctx.token_mint.decimals) {
                Err(e) => Err(SaleError::Whitelist(e)),
                Ok(funding) => match transfer_outcome(
                    ctx.signer_ata,
                    ctx.vault_ata,
                    ctx.token_mint,
                    ctx.signer.key,
                    funding,
                ) {
                    Err(e) => Err(e),
                    Ok(_) => Ok(funding),
                },
            },
        }
    }
}

/// The accounts after a creation that funded the vault with `funding`.
pub open spec fn after_creation(
    ctx: CreateWhitelistSale,
    lamports_per_token: u64,
    max_tokens_per_buyer: u64,
    max_buyers: u64,
    funding: u64,
) -> CreateWhitelistSale {
    CreateWhitelistSale {
        sale: Some(
            WhitelistSale::fresh(
                ctx.token_mint.key,
                ctx.signer.key,
                lamports_per_token,
                max_tokens_per_buyer,
                max_buyers,
            ),
        ),
        sale_key: ctx.sale_key,
        signer: ctx.signer,
        token_mint: ctx.token_mint,
        vault_ata: TokenAccount {
            amount: (ctx.vault_ata.amount + funding) as u64,
            ..ctx.vault_ata
        },
        signer_ata: TokenAccount {
            amount: (ctx.signer_ata.amount - funding) as u64,
            ..ctx.signer_ata
        },
    }
}

/// Creates a sale owned by the signer and moves its whole inventory from the
/// signer's token account into the vault. Returns the base units moved, which
/// are exactly the sale's inventory. On failure no sale is created and the
/// accounts are unchanged.
pub fn handle_create_whitelist_sale(
    ctx: &mut CreateWhitelistSale,
    lamports_per_token: u64,
    max_tokens_per_buyer: u64,
    max_buyers: u64,
) -> (r: Result<u64, SaleError>)
    requires
        old(ctx).sale is None,
    ensures
        r == creation_outcome(*old(ctx), max_tokens_per_buyer, max_buyers),
        r is Ok ==> *final(ctx) == after_creation(
            *old(ctx),
            lamports_per_token,
            max_tokens_per_buyer,
            max_buyers,
            r->Ok_0,
        ),
        r is Ok ==> r->Ok_0 == final(ctx).sale->Some_0.inventory(old(ctx).token_mint.decimals),
        r is Ok ==> final(ctx).vault_ata.amount == old(ctx).vault_ata.amount + r->Ok_0,
        r is Ok ==> final(ctx).sale->Some_0.wf(),
        r is Err ==> *final(ctx) == *old(ctx),
{
    if ctx.vault_ata.owner != ctx.sale_key {
        return Err(SaleError::Unauthorized);
    }
    let whole: u64 = match checked_mul(max_buyers, max_tokens_per_buyer) {
        Ok(v) => v,
        Err(e) => {
            return Err(SaleError::Whitelist(e));
        },
    };
    let funding: u64 = match scale_by_decimals(whole, ctx.token_mint.decimals) {
        Ok(v) => v,
        Err(e) => {
            return Err(SaleError::Whitelist(e));
        },
    };
    let mut staged: CreateWhitelistSale = *ctx;
    let mint: Mint = staged.token_mint;
    let creator: Address = staged.signer.key;
    match fund(&mut staged.vault_ata, &mut staged.signer_ata, &mint, &creator, funding) {
        Ok(_) => {},
        Err(e) => {
            return Err(e);
        },
    }
    staged.sale = Some(
        WhitelistSale::new(
            staged.token_mint.key,
            staged.signer.key,
            lamports_per_token,
            max_tokens_per_buyer,
            max_buyers,
        ),
    );
    *ctx = staged;
    Ok(funding)
}

} // verus!
