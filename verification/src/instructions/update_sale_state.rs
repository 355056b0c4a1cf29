//! Lifecycle control: the owner opens and closes registration and the sale.

use vstd::prelude::*;

use crate::error::SaleError;
use crate::state::{Signer, WhitelistSale};

verus! {

/// The accounts of a change of phase.
#[derive(Clone, Copy, Debug, PartialEq, Eq)]
pub struct UpdateSaleState {
    /// The sale to change.
    pub sale: WhitelistSale,
    /// The caller.
    pub signer: Signer,
}

/// Whether the caller may change the phases of the sale: only its owner may.
pub open spec fn update_outcome(ctx: UpdateSaleState) -> Result<(), SaleError> {
    match ctx.sale.owner_check(ctx.signer.key) {
        Ok(_) => Ok(()),
        Err(e) => Err(SaleError::Whitelist(e)),
    }
}

/// The accounts after a change of phase: both flags are as asked, whatever
/// they were, and nothing else has changed.
pub open spec fn after_update(
    ctx: UpdateSaleState,
    is_registration_open: bool,
    is_sale_open: bool,
) -> UpdateSaleState {
    UpdateSaleState {
        sale: WhitelistSale { is_registration_open, is_sale_open, ..ctx.sale },
        signer: ctx.signer,
    }
}

/// Sets both flags of the sale to the given values, whatever they were, if
/// the signer is the owner of the sale. Any other caller is refused with
/// `OnlyOwner` and the sale is unchanged.
pub fn handle_update_sale_state(
    ctx: &mut UpdateSaleState,
    is_registration_open: bool,
    is_sale_open: bool,
) -> (r: Result<(), SaleError>)
    ensures
        r == update_outcome(*old(ctx)),
        r is Ok ==> *final(ctx) == after_update(*old(ctx), is_registration_open, is_sale_open),
        r is Err ==> *final(ctx) == *old(ctx),
        old(ctx).sale.wf() ==> final(ctx).sale.wf(),
{
    match ctx.sale.require_owner(&ctx.signer.key) {
        Ok(_) => {},
        Err(e) => {
            return Err(SaleError::Whitelist(e));
        },
    }
    ctx.sale.is_registration_open = is_registration_open;
    ctx.sale.is_sale_open = is_sale_open;
    Ok(())
}

} // verus!
