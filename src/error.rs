//! Errors of the driver.
use vstd::prelude::*;

verus! {

/// What can go wrong in a driver call.
#[derive(Debug, Clone, PartialEq, Eq)]
pub enum DriverError {
    /// The pair has no instrument at the venue.
    NotSupportedSymbol(String),
    /// The order to cancel is unknown to the venue.
    OrderNotFound,
    /// The order to cancel was already cancelled.
    OrderAlreadyCancelled,
    /// The order to cancel was already filled.
    OrderAlreadyFilled,
    /// A payload was malformed or missing where one was required.
    ParseFailure(String),
    /// A credential or signature cannot be carried in a request header.
    HeaderValueError(String),
    /// A figure cannot be represented in the target numeric type.
    NumericConversionFailure(String),
    /// Balances could not be read.
    BalanceError(String),
    /// The venue answered with a nonzero code.
    Venue { code: u64, msg: String },
    /// Anything else, described in words.
    Generic(String),
}

impl DriverError {
    /// One of the three outcomes that mean an order can no longer be cancelled because it is
    /// already gone; a cancellation treats them as done.
    pub open spec fn is_idempotent_spec(&self) -> bool {
        self is OrderNotFound || self is OrderAlreadyCancelled || self is OrderAlreadyFilled
    }

    pub fn is_idempotent(&self) -> (r: bool)
        ensures
            r == self.is_idempotent_spec(),
    {
        match self {
            DriverError::OrderNotFound => true,
            DriverError::OrderAlreadyCancelled => true,
            DriverError::OrderAlreadyFilled => true,
            _ => false,
        }
    }
}

} // verus!
