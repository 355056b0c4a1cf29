//! A whitelisted token sale with capped allocations and escrow custody.
//!
//! An owner funds a vault with the whole inventory of a sale, buyers register
//! while registration is open, and each registered buyer may then buy up to a
//! personal cap at a fixed price. Every operation is one atomic transition on
//! the accounts it is handed: it either commits all of its changes or none.

use vstd::prelude::*;

pub mod custody;
pub mod error;
pub mod escrow;
pub mod instructions;
pub mod math;
pub mod state;

use crate::error::SaleError;
use crate::instructions::buy_tokens::{
    after_purchase,
    handle_buy_tokens,
    purchase_outcome,
    BuyTokens,
    Purchase,
};
use crate::instructions::close_whitelist_sale::{
    after_closure,
    closure_outcome,
    handle_close_whitelist_sale,
    CloseWhitelistSale,
};
use crate::instructions::create_whitelist_sale::{
    after_creation,
    creation_outcome,
    handle_create_whitelist_sale,
    CreateWhitelistSale,
};
use crate::instructions::register_for_whitelist::{
    after_registration,
    handle_register_for_whitelist,
    registration_outcome,
    RegisterForWhitelist,
};
use crate::instructions::update_sale_state::{
    after_update,
    handle_update_sale_state,
    update_outcome,
    UpdateSaleState,
};

verus! {

/// Creates a sale owned by the signer, with registration open and the sale
/// not yet open, and funds its vault with the whole inventory. Returns the
/// base units that went into the vault.
pub fn create_whitelist_sale(
    ctx: &mut CreateWhitelistSale,
    lamports_per_token: u64,
    max_tokens_per_buyer: u64,
    max_buyers: u64,
) -> (r: Result<u64, SaleError>)
    requires
        old(ctx).sale is None,
    ensures
        r == creation_outcome(*old(ctx), max_tokens_per_buyer, max_buyers),
        r is Ok ==> *final(ctx) == after_creation(
            *old(ctx),
            lamports_per_token,
            max_tokens_per_buyer,
            max_buyers,
            r->Ok_0,
        ),
        r is Ok ==> r->Ok_0 == final(ctx).sale->Some_0.inventory(old(ctx).token_mint.decimals),
        r is Err ==> *final(ctx) == *old(ctx),
{
    handle_create_whitelist_sale(ctx, lamports_per_token, max_tokens_per_buyer, max_buyers)
}

/// Sets the two phase flags of the sale, for its owner only.
pub fn update_sale_state(ctx: &mut UpdateSaleState, is_registration_open: bool, is_sale_open: bool) -> (r:
    Result<(), SaleError>)
    ensures
        r == update_outcome(*old(ctx)),
        r is Ok ==> *final(ctx) == after_update(*old(ctx), is_registration_open, is_sale_open),
        r is Err ==> *final(ctx) == *old(ctx),
{
    handle_update_sale_state(ctx, is_registration_open, is_sale_open)
}

/// Registers the signer as a buyer of the sale.
pub fn register_for_whitelist(ctx: &mut RegisterForWhitelist) -> (r: Result<(), SaleError>)
    requires
        old(ctx).allowance is None,
    ensures
        r == registration_outcome(old(ctx).sale),
        r is Ok ==> *final(ctx) == after_registration(*old(ctx)),
        r is Err ==> *final(ctx) == *old(ctx),
        old(ctx).sale.wf() ==> final(ctx).sale.wf(),
{
    handle_register_for_whitelist(ctx)
}

/// Buys `amount` whole tokens for the signer.
pub fn buy_tokens(ctx: &mut BuyTokens, amount: u64) -> (r: Result<Purchase, SaleError>)
    ensures
        r == purchase_outcome(*old(ctx), amount),
        r is Ok ==> *final(ctx) == after_purchase(*old(ctx), amount, r->Ok_0),
        r is Err ==> *final(ctx) == *old(ctx),
        old(ctx).allowance.within(&old(ctx).sale) ==> final(ctx).allowance.within(&final(ctx).sale),
{
    handle_buy_tokens(ctx, amount)
}

/// Closes the sale for its owner and returns the base units drained from the
/// vault.
pub fn close_whitelist_sale(ctx: &mut CloseWhitelistSale) -> (r: Result<u64, SaleError>)
    requires
        old(ctx).sale is Some,
    ensures
        r == closure_outcome(*old(ctx), old(ctx).sale->Some_0),
        r is Ok ==> *final(ctx) == after_closure(*old(ctx)),
        r is Ok ==> r->Ok_0 == old(ctx).vault_ata.amount && final(ctx).sale is None,
        r is Err ==> *final(ctx) == *old(ctx),
{
    handle_close_whitelist_sale(ctx)
}

} // verus!
