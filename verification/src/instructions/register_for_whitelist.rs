//! Registration: a buyer joins the whitelist of a sale while registration is
//! open and a place is left.

use vstd::prelude::*;

use crate::error::{SaleError, WhitelistError};
use crate::math::checked_add;
use crate::state::{Allowance, Signer, WhitelistSale};

verus! {

/// The accounts of a registration.
#[derive(Clone, Copy, Debug, PartialEq, Eq)]
pub struct RegisterForWhitelist {
    /// The sale to register for.
    pub sale: WhitelistSale,
    /// The buyer.
    pub signer: Signer,
    /// The place of the buyer's allowance: empty before, filled after.
    pub allowance: Option<Allowance>,
}

/// Whether `sale` admits one more buyer, and the failure where it does not:
/// registration must be open, and then a place must be left.
pub open spec fn registration_outcome(sale: WhitelistSale) -> Result<(), SaleError> {
    if !sale.is_registration_open {
        Err(SaleError::Whitelist(WhitelistError::WhitelistRegistrationClosed))
    } else if sale.num_buyers >= sale.max_buyers {
        Err(SaleError::Whitelist(WhitelistError::BuyerLimitReached))
    } else {
        Ok(())
    }
}

/// The accounts after a registration: one more buyer is counted, and the new
/// buyer has bought nothing.
pub open spec fn after_registration(ctx: RegisterForWhitelist) -> RegisterForWhitelist {
    RegisterForWhitelist {
        sale: WhitelistSale { num_buyers: (ctx.sale.num_buyers + 1) as u64, ..ctx.sale },
        signer: ctx.signer,
        allowance: Some(Allowance { tokens_bought: 0 }),
    }
}

/// Registers the signer as a buyer of the sale. The allowance is created and
/// the count of buyers is raised together, or neither is.
pub fn handle_register_for_whitelist(ctx: &mut RegisterForWhitelist) -> (r: Result<(), SaleError>)
    requires
        old(ctx).allowance is None,
    ensures
        r == registration_outcome(old(ctx).sale),
        r is Ok ==> *final(ctx) == after_registration(*old(ctx)),
        r is Err ==> *final(ctx) == *old(ctx),
        old(ctx).sale.wf() ==> final(ctx).sale.wf(),
        final(ctx).allowance is Some ==> final(ctx).allowance->Some_0.within(&final(ctx).sale),
{
    if !ctx.sale.is_registration_open {
        return Err(SaleError::Whitelist(WhitelistError::WhitelistRegistrationClosed));
    }
    if ctx.sale.num_buyers >= ctx.sale.max_buyers {
        return Err(SaleError::Whitelist(WhitelistError::BuyerLimitReached));
    }
    match checked_add(ctx.sale.num_buyers, 1) {
        Ok(count) => {
            ctx.allowance = Some(Allowance { tokens_bought: 0 });
            ctx.sale.num_buyers = count;
            Ok(())
        },
        Err(e) => Err(SaleError::Whitelist(e)),
    }
}

} // verus!
