//! The operations of a sale, one module each.

pub mod buy_tokens;
pub mod close_whitelist_sale;
pub mod create_whitelist_sale;
pub mod register_for_whitelist;
pub mod update_sale_state;
