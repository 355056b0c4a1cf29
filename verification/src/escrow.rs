//! The books of one sale: its record, the allowances of all its buyers and the
//! balance of its vault, taken together. The vault of a sale is backed when it
//! holds exactly the inventory that has not been released yet. The laws below
//! show that creation establishes this, that registration and purchase keep
//! it, and that the buyers of a backed sale never receive more than the vault
//! was funded with.

use vstd::arithmetic::mul::{
    lemma_mul_inequality,
    lemma_mul_is_distributive_add_other_way,
};
use vstd::arithmetic::power::lemma_pow_positive;
use vstd::prelude::*;

use crate::instructions::buy_tokens::{after_purchase, purchase_outcome, BuyTokens};
use crate::instructions::create_whitelist_sale::{
    after_creation,
    creation_outcome,
    CreateWhitelistSale,
};
use crate::instructions::register_for_whitelist::{
    after_registration,
    registration_outcome,
    RegisterForWhitelist,
};
use crate::math::unit;
use crate::state::{Allowance, WhitelistSale};

verus! {

/// The whole tokens that the buyers have bought, all together.
pub open spec fn total_bought(allowances: Seq<Allowance>) -> int
    decreases allowances.len(),
{
    if allowances.len() == 0 {
        0
    } else {
        total_bought(allowances.drop_last()) + allowances.last().tokens_bought
    }
}

/// The base units that the vault has released to the buyers, all together.
pub open spec fn released(allowances: Seq<Allowance>, decimals: u8) -> int {
    total_bought(allowances) * unit(decimals)
}

/// `allowances` holds one allowance for each registered buyer of `sale`, no
/// more buyers are registered than the sale admits, and each buyer is within
/// the cap.
pub open spec fn registered(sale: WhitelistSale, allowances: Seq<Allowance>) -> bool {
    &&& sale.wf()
    &&& allowances.len() == sale.num_buyers
    &&& forall|i: int| 0 <= i < allowances.len() ==> (#[trigger] allowances[i]).within(&sale)
}

/// The books of a sale are in order: `allowances` are those of its registered
/// buyers, and the vault, which holds `vault` base units, together with what
/// was released makes up the inventory.
pub open spec fn backed(
    sale: WhitelistSale,
    allowances: Seq<Allowance>,
    vault: int,
    decimals: u8,
) -> bool {
    &&& registered(sale, allowances)
    &&& vault + released(allowances, decimals) == sale.inventory(decimals)
}

proof fn lemma_total_bought_bounded(allowances: Seq<Allowance>, cap: int)
    requires
        forall|i: int| 0 <= i < allowances.len() ==> (#[trigger] allowances[i]).tokens_bought <= cap,
    ensures
        0 <= total_bought(allowances) <= allowances.len() * cap,
    decreases allowances.len(),
{
    if allowances.len() > 0 {
        let rest = allowances.drop_last();
        assert forall|i: int| 0 <= i < rest.len() implies (#[trigger] rest[i]).tokens_bought
            <= cap by {
            assert(rest[i] == allowances[i]);
        }
        lemma_total_bought_bounded(rest, cap);
        assert(rest.len() * cap + cap == allowances.len() * cap) by (nonlinear_arith)
            requires
                rest.len() + 1 == allowances.len(),
        ;
    }
}

proof fn lemma_total_bought_update(allowances: Seq<Allowance>, i: int, a: Allowance)
    requires
        0 <= i < allowances.len(),
    ensures
        total_bought(allowances.update(i, a)) == total_bought(allowances)
            - allowances[i].tokens_bought + a.tokens_bought,
    decreases allowances.len(),
{
    let changed = allowances.update(i, a);
    if i == allowances.len() - 1 {
        assert(changed.drop_last() =~= allowances.drop_last());
    } else {
        assert(changed.drop_last() =~= allowances.drop_last().update(i, a));
        lemma_total_bought_update(allowances.drop_last(), i, a);
    }
}

/// The registered buyers of a sale, each within the cap, have received no more
/// base units, all together, than the inventory that the vault was funded
/// with.
pub proof fn lemma_released_within_inventory(
    sale: WhitelistSale,
    allowances: Seq<Allowance>,
    decimals: u8,
)
    requires
        registered(sale, allowances),
    ensures
        0 <= released(allowances, decimals) <= sale.inventory(decimals),
{
    let cap = sale.max_tokens_per_buyer as int;
    let one = unit(decimals);
    lemma_pow_positive(10, decimals as nat);
    lemma_total_bought_bounded(allowances, cap);
    let total = total_bought(allowances);
    assert(allowances.len() * cap <= sale.max_buyers * cap) by (nonlinear_arith)
        requires
            allowances.len() <= sale.max_buyers,
            0 <= cap,
    ;
    lemma_mul_inequality(total, sale.max_buyers * cap, one);
    lemma_mul_inequality(0, total, one);
}

/// A creation that succeeds on an empty vault leaves the books in order, with
/// no buyer yet and the whole inventory in the vault.
pub proof fn lemma_creation_is_backed(
    ctx: CreateWhitelistSale,
    lamports_per_token: u64,
    max_tokens_per_buyer: u64,
    max_buyers: u64,
)
    requires
        ctx.vault_ata.amount == 0,
        creation_outcome(ctx, max_tokens_per_buyer, max_buyers) is Ok,
    ensures
        ({
            let funding = creation_outcome(ctx, max_tokens_per_buyer, max_buyers)->Ok_0;
            let after = after_creation(
                ctx,
                lamports_per_token,
                max_tokens_per_buyer,
                max_buyers,
                funding,
            );
            &&& after.vault_ata.amount == after.sale->Some_0.inventory(ctx.token_mint.decimals)
            &&& backed(
                after.sale->Some_0,
                Seq::empty(),
                after.vault_ata.amount as int,
                ctx.token_mint.decimals,
            )
        }),
{
}

/// A registration that succeeds keeps the books in order, with the new
/// buyer's allowance added to them.
pub proof fn lemma_registration_keeps_backing(
    ctx: RegisterForWhitelist,
    allowances: Seq<Allowance>,
    vault: int,
    decimals: u8,
)
    requires
        backed(ctx.sale, allowances, vault, decimals),
        registration_outcome(ctx.sale) is Ok,
    ensures
        backed(
            after_registration(ctx).sale,
            allowances.push(after_registration(ctx).allowance->Some_0),
            vault,
            decimals,
        ),
{
    let after = after_registration(ctx);
    let grown = allowances.push(after.allowance->Some_0);
    assert(grown.drop_last() =~= allowances);
    assert forall|i: int| 0 <= i < grown.len() implies (#[trigger] grown[i]).within(
        &after.sale,
    ) by {
        if i < allowances.len() {
            assert(grown[i] == allowances[i]);
        }
    }
}

/// A purchase that succeeds keeps the books in order: what the vault released
/// is what the buyer's allowance grew by, in base units. Here `buyer` is the
/// place of the buyer's allowance in the books.
pub proof fn lemma_purchase_keeps_backing(
    ctx: BuyTokens,
    amount: u64,
    allowances: Seq<Allowance>,
    buyer: int,
)
    requires
        0 <= buyer < allowances.len(),
        allowances[buyer] == ctx.allowance,
        backed(ctx.sale, allowances, ctx.vault_ata.amount as int, ctx.token_mint.decimals),
        purchase_outcome(ctx, amount) is Ok,
    ensures
        ({
            let after = after_purchase(ctx, amount, purchase_outcome(ctx, amount)->Ok_0);
            backed(
                after.sale,
                allowances.update(buyer, after.allowance),
                after.vault_ata.amount as int,
                ctx.token_mint.decimals,
            )
        }),
{
    let moved = purchase_outcome(ctx, amount)->Ok_0;
    let after = after_purchase(ctx, amount, moved);
    let changed = allowances.update(buyer, after.allowance);
    let one = unit(ctx.token_mint.decimals);
    assert(moved.tokens_received == amount * one);
    lemma_total_bought_update(allowances, buyer, after.allowance);
    assert(total_bought(changed) == total_bought(allowances) + amount);
    lemma_mul_is_distributive_add_other_way(one, total_bought(allowances), amount as int);
    assert forall|i: int| 0 <= i < changed.len() implies (#[trigger] changed[i]).within(
        &after.sale,
    ) by {
        if i != buyer {
            assert(changed[i] == allowances[i]);
        }
    }
}

/// While the books are in order the vault covers every purchase that the
/// rules admit: a purchase never fails for want of tokens in the vault.
pub proof fn lemma_backed_vault_covers_purchase(
    ctx: BuyTokens,
    amount: u64,
    allowances: Seq<Allowance>,
    buyer: int,
)
    requires
        0 <= buyer < allowances.len(),
        allowances[buyer] == ctx.allowance,
        backed(ctx.sale, allowances, ctx.vault_ata.amount as int, ctx.token_mint.decimals),
        ctx.allowance.tokens_bought + amount <= ctx.sale.max_tokens_per_buyer,
    ensures
        amount * unit(ctx.token_mint.decimals) <= ctx.vault_ata.amount,
{
    let one = unit(ctx.token_mint.decimals);
    let cap = ctx.sale.max_tokens_per_buyer as int;
    let full = Allowance { tokens_bought: ctx.sale.max_tokens_per_buyer };
    let filled = allowances.update(buyer, full);
    lemma_pow_positive(10, ctx.token_mint.decimals as nat);
    lemma_total_bought_update(allowances, buyer, full);
    assert forall|i: int| 0 <= i < filled.len() implies (#[trigger] filled[i]).tokens_bought
        <= cap by {
        if i != buyer {
            assert(filled[i] == allowances[i]);
            assert(allowances[i].within(&ctx.sale));
        }
    }
    lemma_total_bought_bounded(filled, cap);
    assert(filled.len() * cap <= ctx.sale.max_buyers * cap) by (nonlinear_arith)
        requires
            filled.len() <= ctx.sale.max_buyers,
            0 <= cap,
    ;
    let total = total_bought(allowances);
    // total + amount <= total - bought + cap <= max_buyers * cap
    lemma_mul_inequality(total + amount, ctx.sale.max_buyers * cap, one);
    lemma_mul_is_distributive_add_other_way(one, total, amount as int);
}

} // verus!
