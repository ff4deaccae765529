//! Order identifiers, the venue's acknowledgment of an order mutation, and the response
//! envelope of its REST interface.
use vstd::prelude::*;
use crate::decimal::Dec;
use crate::error::DriverError;
use crate::instrument::OkexInstrumentId;

verus! {

/// Venue code of a cancellation whose order does not exist.
pub const CODE_ORDER_NOT_FOUND: u64 = 51400;

/// Venue code of a cancellation whose order is already cancelled.
pub const CODE_ORDER_ALREADY_CANCELLED: u64 = 51401;

/// Venue code of a cancellation whose order is already filled.
pub const CODE_ORDER_ALREADY_FILLED: u64 = 51402;

/// The venue's identifier of an order.
#[derive(Debug, Hash)]
pub struct OrderId(pub String);

impl Clone for OrderId {
    fn clone(&self) -> (r: OrderId)
        ensures
            r == *self,
    {
        OrderId(self.0.clone())
    }
}

impl PartialEq for OrderId {
    fn eq(&self, other: &OrderId) -> (r: bool)
        ensures
            r == (self.0@ == other.0@),
    {
        self.0 == other.0
    }
}

impl vstd::std_specs::cmp::PartialEqSpecImpl for OrderId {
    open spec fn obeys_eq_spec() -> bool {
        true
    }

    open spec fn eq_spec(&self, other: &OrderId) -> bool {
        self.0@ == other.0@
    }
}

impl Eq for OrderId {}

impl View for OrderId {
    type V = Seq<char>;

    open spec fn view(&self) -> Seq<char> {
        self.0@
    }
}

/// Side of an order or a trade.
#[derive(Debug, Clone, Copy, PartialEq, Eq, Structural)]
pub enum Side {
    Buy,
    Sell,
}

/// An order that is still open at the venue.
#[derive(Debug, Clone)]
pub struct OkexPendingOrder {
    pub instrument_id: OkexInstrumentId,
    pub order_id: OrderId,
    pub client_order_id: String,
    pub price: Dec,
    pub amount: Dec,
    pub side: Side,
    pub created_at: u64,
}

/// The venue's acknowledgment of one order mutation.
#[derive(Debug, Clone)]
pub struct OrderResult {
    pub order_id: OrderId,
    pub client_oid: String,
    pub code: u64,
    pub msg: String,
}

impl OrderResult {
    /// Code 0 is success; the three codes of an order that is already gone map to their own
    /// errors; any other code is a venue error carrying the code and message.
    pub open spec fn outcome(&self) -> Result<(), DriverError> {
        if self.code == 0 {
            Ok(())
        } else if self.code == CODE_ORDER_NOT_FOUND {
            Err(DriverError::OrderNotFound)
        } else if self.code == CODE_ORDER_ALREADY_CANCELLED {
            Err(DriverError::OrderAlreadyCancelled)
        } else if self.code == CODE_ORDER_ALREADY_FILLED {
            Err(DriverError::OrderAlreadyFilled)
        } else {
            Err(DriverError::Venue { code: self.code, msg: self.msg })
        }
    }

    /// The order counts as cancelled: a clean success or one of the idempotent outcomes.
    pub open spec fn confirms_cancel(&self) -> bool {
        match self.outcome() {
            Ok(_) => true,
            Err(e) => e.is_idempotent_spec(),
        }
    }

    /// Checks the acknowledgment code (see `outcome`).
    pub fn validate(&self) -> (r: Result<(), DriverError>)
        ensures
            r == self.outcome(),
    {
        if self.code == 0 {
            Ok(())
        } else if self.code == CODE_ORDER_NOT_FOUND {
            Err(DriverError::OrderNotFound)
        } else if self.code == CODE_ORDER_ALREADY_CANCELLED {
            Err(DriverError::OrderAlreadyCancelled)
        } else if self.code == CODE_ORDER_ALREADY_FILLED {
            Err(DriverError::OrderAlreadyFilled)
        } else {
            Err(DriverError::Venue { code: self.code, msg: self.msg.clone() })
        }
    }
}

/// The REST envelope `{code, msg, data}`; code 0 is success.
#[derive(Debug)]
pub struct OkexRestResponse<T> {
    pub code: u64,
    pub msg: Option<String>,
    pub data: Option<T>,
}

/// An absent message reads as the empty one.
pub open spec fn message_or_empty(msg: Option<String>) -> Seq<char> {
    match msg {
        Some(m) => m@,
        None => Seq::empty(),
    }
}

impl<T> OkexRestResponse<T> {
    /// A nonzero code is a venue error with the code and the message (empty when absent);
    /// code 0 hands over the payload, which may be absent.
    pub fn validate(self) -> (r: Result<Option<T>, DriverError>)
        ensures
            self.code == 0 ==> r == Ok::<Option<T>, DriverError>(self.data),
            self.code != 0 ==> (r matches Err(DriverError::Venue { code, msg })
                && code == self.code && msg@ == message_or_empty(self.msg)),
    {
        if self.code == 0 {
            Ok(self.data)
        } else {
            let msg = match self.msg {
                Some(m) => m,
                None => String::new(),
            };
            Err(DriverError::Venue { code: self.code, msg })
        }
    }
}

/// The records of a page: a nonzero code is a venue error (see `validate`); code 0 with no
/// payload is a parse failure, never an empty page.
pub fn rest_page<T>(res: OkexRestResponse<Vec<T>>) -> (r: Result<Vec<T>, DriverError>)
    ensures
        res.code != 0 ==> (r matches Err(DriverError::Venue { code, msg }) && code == res.code
            && msg@ == message_or_empty(res.msg)),
        res.code == 0 ==> match res.data {
            Some(records) => r == Ok::<Vec<T>, DriverError>(records),
            None => r matches Err(DriverError::ParseFailure(_)),
        },
{
    match res.validate() {
        Ok(Some(records)) => Ok(records),
        Ok(None) => Err(DriverError::ParseFailure("no data".to_string())),
        Err(e) => Err(e),
    }
}

} // verus!
