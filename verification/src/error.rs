//! The failures of the sale's operations.

use vstd::prelude::*;

verus! {

/// A rule of the sale that a request broke.
#[derive(Clone, Copy, Debug, PartialEq, Eq, Structural)]
pub enum WhitelistError {
    /// The caller is not the owner of the sale.
    OnlyOwner,
    /// Registration is not open.
    WhitelistRegistrationClosed,
    /// The sale is not open.
    SaleClosed,
    /// The purchase would take the buyer over the cap per buyer.
    AllowanceExceeded,
    /// The accounts of a transfer do not hold the same token.
    MintMismatch,
    /// As many buyers as the sale admits have registered.
    BuyerLimitReached,
    /// A sum, product or power does not fit in 64 bits.
    ArithmeticOverflow,
}

impl WhitelistError {
    /// The words that describe the failure.
    pub open spec fn text(self) -> Seq<char> {
        match self {
            WhitelistError::OnlyOwner => "Only the sale owner can perform this action"@,
            WhitelistError::WhitelistRegistrationClosed => "Whitelist registration is closed"@,
            WhitelistError::SaleClosed => "Whiteliste sale is closed"@,
            WhitelistError::AllowanceExceeded => "Token purchase is larger than remaining allowance"@,
            WhitelistError::MintMismatch => "Mismatch in mints of provided accounts"@,
            WhitelistError::BuyerLimitReached => "The maximum number of registered buyers has been reached"@,
            WhitelistError::ArithmeticOverflow => "overflow"@,
        }
    }

    /// The failure in words.
    pub fn message(&self) -> (s: String)
        ensures
            s@ == self.text(),
    {
        match self {
            WhitelistError::OnlyOwner => "Only the sale owner can perform this action".to_owned(),
            WhitelistError::WhitelistRegistrationClosed => "Whitelist registration is closed".to_owned(),
            WhitelistError::SaleClosed => "Whiteliste sale is closed".to_owned(),
            WhitelistError::AllowanceExceeded => "Token purchase is larger than remaining allowance".to_owned(),
            WhitelistError::MintMismatch => "Mismatch in mints of provided accounts".to_owned(),
            WhitelistError::BuyerLimitReached => "The maximum number of registered buyers has been reached".to_owned(),
            WhitelistError::ArithmeticOverflow => "overflow".to_owned(),
        }
    }
}

/// Why an operation was rejected: a broken rule of the sale, or a transfer
/// that custody refuses.
#[derive(Clone, Copy, Debug, PartialEq, Eq, Structural)]
pub enum SaleError {
    /// A rule of the sale was broken.
    Whitelist(WhitelistError),
    /// The account to be debited holds less than the amount to move.
    InsufficientFunds,
    /// The debit was ordered by another than the authority of the account.
    Unauthorized,
}

impl SaleError {
    /// The words that describe the failure.
    pub open spec fn text(self) -> Seq<char> {
        match self {
            SaleError::Whitelist(rule) => rule.text(),
            SaleError::InsufficientFunds => "insufficient funds"@,
            SaleError::Unauthorized => "owner does not match"@,
        }
    }

    /// The failure in words.
    pub fn message(&self) -> (s: String)
        ensures
            s@ == self.text(),
    {
        match self {
            SaleError::Whitelist(rule) => rule.message(),
            SaleError::InsufficientFunds => "insufficient funds".to_owned(),
            SaleError::Unauthorized => "owner does not match".to_owned(),
        }
    }
}

} // verus!
