//! Executed trades: the venue's fill records and their normalized form.
use vstd::prelude::*;
use crate::decimal::Dec;
use crate::instrument::OkexInstrumentId;
use crate::order::{OrderId, Side};

verus! {

/// One day in milliseconds.
pub const ONE_DAY_IN_MILLIS: i64 = 86_400_000;

/// Whether a fill added or took liquidity.
#[derive(Debug, Clone, Copy, PartialEq, Eq, Structural)]
pub enum Liquidity {
    Maker,
    Taker,
    Unknown,
}

/// The venue's execution type: `M` is maker, `T` is taker, anything else is unknown.
pub open spec fn liquidity_of(code: Seq<char>) -> Liquidity {
    if code == seq!['M'] {
        Liquidity::Maker
    } else if code == seq!['T'] {
        Liquidity::Taker
    } else {
        Liquidity::Unknown
    }
}

/// Reads the venue's execution type (see `liquidity_of`).
pub fn deserialize_to_liquidity(code: &str) -> (r: Liquidity)
    ensures
        r == liquidity_of(code@),
{
    if code.unicode_len() == 1 {
        let c = code.get_char(0);
        if c == 'M' {
            assert(code@ =~= seq!['M']);
            Liquidity::Maker
        } else if c == 'T' {
            assert(code@ =~= seq!['T']);
            Liquidity::Taker
        } else {
            Liquidity::Unknown
        }
    } else {
        Liquidity::Unknown
    }
}

/// A fill as the venue reports it.
#[derive(Debug, Clone)]
pub struct TransactionResult {
    pub instrument_id: OkexInstrumentId,
    pub trade_id: String,
    pub order_id: OrderId,
    pub bill_id: String,
    pub price: Dec,
    pub filled_amount: Dec,
    pub side: Side,
    pub liquidity: Liquidity,
    pub fee_currency: String,
    pub fee: Dec,
    /// Milliseconds since the epoch.
    pub created_at: i64,
}

} // verus!
