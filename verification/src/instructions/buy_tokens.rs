//! Purchase: a registered buyer pays lamports into the sale and receives
//! tokens from its vault, within the cap per buyer.

use vstd::prelude::*;

use crate::custody::{move_balance, move_outcome, release_to_buyer, transfer_outcome};
use crate::error::{SaleError, WhitelistError};
use crate::math::{checked_add, checked_mul, scale_by_decimals, scaled};
use crate::state::{Address, Allowance, Mint, Signer, TokenAccount, WhitelistSale};

verus! {

/// The accounts of a purchase.
#[derive(Clone, Copy, Debug, PartialEq, Eq)]
pub struct BuyTokens {
    /// The sale that is bought from.
    pub sale: WhitelistSale,
    /// The address of the sale, in whose name its vault is debited.
    pub sale_key: Address,
    /// The lamports that the sale holds: what buyers have paid so far.
    pub sale_lamports: u64,
    /// What the buyer has bought in this sale so far.
    pub allowance: Allowance,
    /// The vault of the sale.
    pub vault_ata: TokenAccount,
    /// The buyer.
    pub signer: Signer,
    /// The buyer's token account.
    pub signer_ata: TokenAccount,
    /// The token that is sold.
    pub token_mint: Mint,
}

/// What a purchase moved.
#[derive(Clone, Copy, Debug, PartialEq, Eq, Structural)]
pub struct Purchase {
    /// The lamports that the buyer paid.
    pub paid: u64,
    /// The base units of the token that the buyer received.
    pub tokens_received: u64,
}

/// The result of a purchase of `amount` whole tokens on the accounts `ctx`.
/// The checks come in this order: the sale is open; the buyer's new total fits
/// in 64 bits and is within the cap; the price of the purchase fits; the buyer
/// can pay it and the sale can hold it; the amount in base units fits; the
/// vault, debited in the name of the sale, can release it to the buyer's
/// account.
pub open spec fn purchase_outcome(ctx: BuyTokens, amount: u64) -> Result<Purchase, SaleError> {
    let total = ctx.allowance.tokens_bought + amount;
    let price = ctx.sale.lamports_per_token * amount;
    if !ctx.sale.is_sale_open {
        Err(SaleError::Whitelist(WhitelistError::SaleClosed))
    } else if total > u64::MAX {
        Err(SaleError::Whitelist(WhitelistError::ArithmeticOverflow))
    } else if total > ctx.sale.max_tokens_per_buyer {
        Err(SaleError::Whitelist(WhitelistError::AllowanceExceeded))
    } else if price > u64::MAX {
        Err(SaleError::Whitelist(WhitelistError::ArithmeticOverflow))
    } else {
        match move_outcome(ctx.signer.lamports, ctx.sale_lamports, price as u64) {
            Err(e) => Err(e),
            Ok(_) => match scaled(amount, ctx.token_mint.decimals) {
                Err(e) => Err(SaleError::Whitelist(e)),
                Ok(tokens) => match transfer_outcome(
                    ctx.vault_ata,
                    ctx.signer_ata,
                    ctx.token_mint,
                    ctx.sale_key,
                    tokens,
                ) {
                    Err(e) => Err(e),
                    Ok(_) => Ok(Purchase { paid: price as u64, tokens_received: tokens }),
                },
            },
        }
    }
}

/// A purchase in which a sum, a product or a power does not fit in 64 bits,
/// and which no check that comes before that step refuses, fails with
/// `ArithmeticOverflow`.
pub proof fn lemma_overflow_rejects_purchase(ctx: BuyTokens, amount: u64)
    requires
        ctx.sale.is_sale_open,
    ensures
        ({
            let overflow = Err::<Purchase, SaleError>(
                SaleError::Whitelist(WhitelistError::ArithmeticOverflow),
            );
            let total = ctx.allowance.tokens_bought + amount;
            let price = ctx.sale.lamports_per_token * amount;
            let within_cap = total <= ctx.sale.max_tokens_per_buyer;
            let paid = within_cap && price <= u64::MAX && move_outcome(
                ctx.signer.lamports,
                ctx.sale_lamports,
                price as u64,
            ) is Ok;
            &&& total > u64::MAX ==> purchase_outcome(ctx, amount) == overflow
            &&& within_cap && price > u64::MAX ==> purchase_outcome(ctx, amount) == overflow
            &&& within_cap && price <= u64::MAX && ctx.signer.lamports >= price
                && ctx.sale_lamports + price > u64::MAX ==> purchase_outcome(ctx, amount)
                == overflow
            &&& paid && scaled(amount, ctx.token_mint.decimals) is Err ==> purchase_outcome(
                ctx,
                amount,
            ) == overflow
            &&& paid && scaled(amount, ctx.token_mint.decimals) is Ok && ctx.vault_ata.mint
                == ctx.token_mint.key && ctx.signer_ata.mint == ctx.token_mint.key
                && ctx.vault_ata.owner == ctx.sale_key && ctx.vault_ata.amount >= scaled(amount, ctx.token_mint.decimals)->Ok_0
                && ctx.signer_ata.amount + scaled(amount, ctx.token_mint.decimals)->Ok_0
                > u64::MAX ==> purchase_outcome(ctx, amount) == overflow
        }),
{
}

/// The accounts after a purchase of `amount` whole tokens that moved `moved`:
/// the buyer's total has grown by `amount`, the payment has gone from the
/// buyer to the sale, the tokens from the vault to the buyer, and nothing else
/// has changed.
pub open spec fn after_purchase(ctx: BuyTokens, amount: u64, moved: Purchase) -> BuyTokens {
    BuyTokens {
        sale: ctx.sale,
        sale_key: ctx.sale_key,
        sale_lamports: (ctx.sale_lamports + moved.paid) as u64,
        allowance: Allowance { tokens_bought: (ctx.allowance.tokens_bought + amount) as u64 },
        vault_ata: TokenAccount {
            amount: (ctx.vault_ata.amount - moved.tokens_received) as u64,
            ..ctx.vault_ata
        },
        signer: Signer { lamports: (ctx.signer.lamports - moved.paid) as u64, ..ctx.signer },
        signer_ata: TokenAccount {
            amount: (ctx.signer_ata.amount + moved.tokens_received) as u64,
            ..ctx.signer_ata
        },
        token_mint: ctx.token_mint,
    }
}

/// Buys `amount` whole tokens for the signer. On success the accounts are
/// those of `after_purchase`; on failure they are unchanged.
pub fn handle_buy_tokens(ctx: &mut BuyTokens, amount: u64) -> (r: Result<Purchase, SaleError>)
    ensures
        r == purchase_outcome(*old(ctx), amount),
        r is Ok ==> *final(ctx) == after_purchase(*old(ctx), amount, r->Ok_0),
        r is Err ==> *final(ctx) == *old(ctx),
        old(ctx).allowance.within(&old(ctx).sale) ==> final(ctx).allowance.within(&final(ctx).sale),
{
    if !ctx.sale.is_sale_open {
        return Err(SaleError::Whitelist(WhitelistError::SaleClosed));
    }
    let total: u64 = match checked_add(ctx.allowance.tokens_bought, amount) {
        Ok(v) => v,
        Err(e) => {
            return Err(SaleError::Whitelist(e));
        },
    };
    if total > ctx.sale.max_tokens_per_buyer {
        return Err(SaleError::Whitelist(WhitelistError::AllowanceExceeded));
    }
    let paid: u64 = match checked_mul(ctx.sale.lamports_per_token, amount) {
        Ok(v) => v,
        Err(e) => {
            return Err(SaleError::Whitelist(e));
        },
    };
    // Work on a copy, so that a failure below leaves the accounts untouched.
    let mut staged: BuyTokens = *ctx;
    staged.allowance.tokens_bought = total;
    match move_balance(&mut staged.signer.lamports, &mut staged.sale_lamports, paid) {
        Ok(_) => {},
        Err(e) => {
            return Err(e);
        },
    }
    let tokens: u64 = match scale_by_decimals(amount, staged.token_mint.decimals) {
        Ok(v) => v,
        Err(e) => {
            return Err(SaleError::Whitelist(e));
        },
    };
    let mint: Mint = staged.token_mint;
    let sale_key: Address = staged.sale_key;
    match release_to_buyer(&mut staged.vault_ata, &mut staged.signer_ata, &mint, &sale_key, tokens) {
        Ok(_) => {},
        Err(e) => {
            return Err(e);
        },
    }
    *ctx = staged;
    Ok(Purchase { paid, tokens_received: tokens })
}

} // verus!
