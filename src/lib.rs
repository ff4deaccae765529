//! Order routing, instrument sizing and account-state assembly for the OKX venue.
pub mod account;
pub mod balance;
pub mod cancel;
pub mod converter;
pub mod correlator;
pub mod decimal;
pub mod error;
pub mod instrument;
pub mod lifecycle;
pub mod order;
pub mod paging;
pub mod report;
pub mod request;
pub mod trade;
