//! The records of a sale and the accounts that its operations touch.

use vstd::prelude::*;

use crate::error::WhitelistError;

verus! {

/// The address of an account or of a principal: 32 bytes.
#[derive(Clone, Copy, Debug)]
pub struct Address {
    pub bytes: [u8; 32],
}

impl Address {
    /// An address made of the given bytes.
    pub fn new(bytes: [u8; 32]) -> (a: Address)
        ensures
            a.bytes == bytes,
    {
        Address { bytes }
    }
}

impl PartialEq for Address {
    fn eq(&self, other: &Address) -> (r: bool) {
        let mut i: usize = 0;
        while i < 32
            invariant
                i <= 32,
                forall|j: int| 0 <= j < i ==> self.bytes[j] == other.bytes[j],
            decreases 32 - i,
        {
            if self.bytes[i] != other.bytes[i] {
                return false;
            }
            i += 1;
        }
        assert(self.bytes =~= other.bytes);
        true
    }
}

impl Eq for Address {

}

impl vstd::std_specs::cmp::PartialEqSpecImpl for Address {
    open spec fn obeys_eq_spec() -> bool {
        true
    }

    open spec fn eq_spec(&self, other: &Address) -> bool {
        *self == *other
    }
}

/// The configuration and state of one sale.
#[derive(Clone, Copy, Debug, PartialEq, Eq)]
pub struct WhitelistSale {
    /// The token that is sold.
    pub token_mint: Address,
    /// The principal who may change the sale's phases and close it.
    pub owner: Address,
    /// The price of one whole token, in lamports.
    pub lamports_per_token: u64,
    /// The most whole tokens that one buyer may buy.
    pub max_tokens_per_buyer: u64,
    /// The most buyers that may register.
    pub max_buyers: u64,
    /// The buyers registered so far.
    pub num_buyers: u64,
    /// Whether buyers may register.
    pub is_registration_open: bool,
    /// Whether registered buyers may buy.
    pub is_sale_open: bool,
}

impl WhitelistSale {
    /// The record of a sale that `owner` has just created: registration is
    /// open, the sale is not, and nobody has registered.
    pub open spec fn fresh(
        token_mint: Address,
        owner: Address,
        lamports_per_token: u64,
        max_tokens_per_buyer: u64,
        max_buyers: u64,
    ) -> WhitelistSale {
        WhitelistSale {
            token_mint,
            owner,
            lamports_per_token,
            max_tokens_per_buyer,
            max_buyers,
            num_buyers: 0,
            is_registration_open: true,
            is_sale_open: false,
        }
    }

    /// Whether `caller` may act as the owner of the sale, as a result:
    /// `OnlyOwner` for anyone else.
    pub open spec fn owner_check(&self, caller: Address) -> Result<(), WhitelistError> {
        if caller == self.owner {
            Ok(())
        } else {
            Err(WhitelistError::OnlyOwner)
        }
    }

    /// The record of a new sale of `token_mint` owned by `owner`.
    pub fn new(
        token_mint: Address,
        owner: Address,
        lamports_per_token: u64,
        max_tokens_per_buyer: u64,
        max_buyers: u64,
    ) -> (sale: WhitelistSale)
        ensures
            sale == WhitelistSale::fresh(
                token_mint,
                owner,
                lamports_per_token,
                max_tokens_per_buyer,
                max_buyers,
            ),
            sale.wf(),
    {
        WhitelistSale {
            token_mint,
            owner,
            lamports_per_token,
            max_tokens_per_buyer,
            max_buyers,
            num_buyers: 0,
            is_registration_open: true,
            is_sale_open: false,
        }
    }

    /// Admits only the owner of the sale.
    pub fn require_owner(&self, caller: &Address) -> (r: Result<(), WhitelistError>)
        ensures
            r == self.owner_check(*caller),
    {
        if *caller == self.owner {
            Ok(())
        } else {
            Err(WhitelistError::OnlyOwner)
        }
    }

    /// No more buyers are registered than the sale admits.
    pub open spec fn wf(&self) -> bool {
        self.num_buyers <= self.max_buyers
    }

    /// The whole inventory of the sale in base units of a token with
    /// `decimals` places.
    pub open spec fn inventory(&self, decimals: u8) -> int {
        self.max_buyers * self.max_tokens_per_buyer * crate::math::unit(decimals)
    }
}

/// What one buyer has bought in one sale, in whole tokens.
#[derive(Clone, Copy, Debug, PartialEq, Eq, Structural)]
pub struct Allowance {
    pub tokens_bought: u64,
}

impl Allowance {
    /// The buyer is within the cap of `sale`.
    pub open spec fn within(&self, sale: &WhitelistSale) -> bool {
        self.tokens_bought <= sale.max_tokens_per_buyer
    }
}

/// A token: its address and the number of decimal places of its base unit.
#[derive(Clone, Copy, Debug, PartialEq, Eq)]
pub struct Mint {
    pub key: Address,
    pub decimals: u8,
}

/// An account that holds base units of one token for one authority. The vault
/// of a sale is such an account, with the sale as its authority.
#[derive(Clone, Copy, Debug, PartialEq, Eq)]
pub struct TokenAccount {
    /// The token that the account holds.
    pub mint: Address,
    /// The authority that may debit the account.
    pub owner: Address,
    /// The balance, in base units.
    pub amount: u64,
}

/// A principal who signed the request, with the lamports they hold.
#[derive(Clone, Copy, Debug, PartialEq, Eq)]
pub struct Signer {
    pub key: Address,
    pub lamports: u64,
}

} // verus!
