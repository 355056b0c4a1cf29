use whitelist_token_sale::error::{SaleError, WhitelistError};
use whitelist_token_sale::math::{checked_add, checked_mul, checked_pow, scale_by_decimals};

#[test]
fn checked_add_returns_the_sum() {
    assert_eq!(checked_add(3, 4), Ok(7));
    assert_eq!(checked_add(0, 0), Ok(0));
    assert_eq!(checked_add(u64::MAX - 1, 1), Ok(u64::MAX));
}

#[test]
fn checked_add_rejects_a_sum_out_of_range() {
    assert_eq!(checked_add(u64::MAX, 1), Err(WhitelistError::ArithmeticOverflow));
    assert_eq!(checked_add(1 << 63, 1 << 63), Err(WhitelistError::ArithmeticOverflow));
}

#[test]
fn checked_mul_returns_the_product() {
    assert_eq!(checked_mul(100, 3), Ok(300));
    assert_eq!(checked_mul(0, u64::MAX), Ok(0));
    assert_eq!(checked_mul(1 << 32, (1 << 32) - 1), Ok(u64::MAX - (1 << 32) + 1));
}

#[test]
fn checked_mul_rejects_a_product_out_of_range() {
    assert_eq!(checked_mul(1 << 32, 1 << 32), Err(WhitelistError::ArithmeticOverflow));
    assert_eq!(checked_mul(u64::MAX, 2), Err(WhitelistError::ArithmeticOverflow));
}

#[test]
fn checked_pow_returns_the_power() {
    assert_eq!(checked_pow(10, 0), Ok(1));
    assert_eq!(checked_pow(10, 6), Ok(1_000_000));
    assert_eq!(checked_pow(10, 19), Ok(10_000_000_000_000_000_000));
    assert_eq!(checked_pow(2, 63), Ok(1 << 63));
    assert_eq!(checked_pow(0, 0), Ok(1));
    assert_eq!(checked_pow(0, 5), Ok(0));
}

#[test]
fn checked_pow_rejects_a_power_out_of_range() {
    assert_eq!(checked_pow(10, 20), Err(WhitelistError::ArithmeticOverflow));
    assert_eq!(checked_pow(2, 64), Err(WhitelistError::ArithmeticOverflow));
}

#[test]
fn scale_by_decimals_multiplies_by_a_power_of_ten() {
    assert_eq!(scale_by_decimals(3, 6), Ok(3_000_000));
    assert_eq!(scale_by_decimals(10, 6), Ok(10_000_000));
    assert_eq!(scale_by_decimals(7, 0), Ok(7));
    assert_eq!(scale_by_decimals(18, 18), Ok(18_000_000_000_000_000_000));
}

#[test]
fn scale_by_decimals_rejects_what_does_not_fit() {
    assert_eq!(scale_by_decimals(19, 18), Err(WhitelistError::ArithmeticOverflow));
    assert_eq!(scale_by_decimals(1, 20), Err(WhitelistError::ArithmeticOverflow));
    // The power is taken first, so it fails even for no tokens at all.
    assert_eq!(scale_by_decimals(0, 20), Err(WhitelistError::ArithmeticOverflow));
    assert_eq!(scale_by_decimals(0, 255), Err(WhitelistError::ArithmeticOverflow));
}

#[test]
fn every_failure_has_its_words() {
    assert_eq!(WhitelistError::OnlyOwner.message(), "Only the sale owner can perform this action");
    assert_eq!(
        WhitelistError::WhitelistRegistrationClosed.message(),
        "Whitelist registration is closed"
    );
    assert_eq!(WhitelistError::SaleClosed.message(), "Whiteliste sale is closed");
    assert_eq!(
        WhitelistError::AllowanceExceeded.message(),
        "Token purchase is larger than remaining allowance"
    );
    assert_eq!(WhitelistError::MintMismatch.message(), "Mismatch in mints of provided accounts");
    assert_eq!(
        WhitelistError::BuyerLimitReached.message(),
        "The maximum number of registered buyers has been reached"
    );
    assert_eq!(WhitelistError::ArithmeticOverflow.message(), "overflow");
    assert_eq!(SaleError::Whitelist(WhitelistError::SaleClosed).message(), "Whiteliste sale is closed");
    assert_eq!(SaleError::InsufficientFunds.message(), "insufficient funds");
    assert_eq!(SaleError::Unauthorized.message(), "owner does not match");
}
