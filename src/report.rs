//! Open orders and trades in the driver's normalized form.
use vstd::prelude::*;
use crate::converter::InstrumentConverter;
use crate::decimal::Dec;
use crate::instrument::Pair;
use crate::order::{OkexPendingOrder, OrderId, Side};
use crate::trade::{Liquidity, TransactionResult, ONE_DAY_IN_MILLIS};

verus! {

/// An open order in normalized form.
#[derive(Debug, Clone)]
pub struct RawOrder {
    pub internal_order_id: String,
    pub order_id: OrderId,
    pub pair: Pair,
    pub side: Side,
    pub price: Dec,
    pub amount: Dec,
    /// Milliseconds since the epoch.
    pub created_at: u64,
}

/// A trade in normalized form.
#[derive(Debug, Clone)]
pub struct RawTrade {
    pub trade_id: String,
    pub order_id: OrderId,
    pub pair: Pair,
    pub side: Side,
    pub price: Dec,
    pub filled_amount: Dec,
    pub fee_amount: Option<Dec>,
    pub fee_currency: Option<String>,
    pub liquidity: Liquidity,
    /// Milliseconds since the epoch, when the trade was taken in.
    pub internal_created_at: i64,
    /// Milliseconds since the epoch, as the venue reports it.
    pub exchange_created_at: i64,
}

/// The open order in normalized form, on the given pair.
pub open spec fn raw_order_of(order: OkexPendingOrder, pair: Pair) -> RawOrder {
    RawOrder {
        internal_order_id: order.client_order_id,
        order_id: order.order_id,
        pair,
        side: order.side,
        price: order.price,
        amount: order.amount,
        created_at: order.created_at,
    }
}

/// The open orders whose instrument maps to a configured pair, in order, each on that pair.
pub open spec fn raw_orders_of(conv: InstrumentConverter, orders: Seq<OkexPendingOrder>) -> Seq<RawOrder>
    decreases orders.len(),
{
    if orders.len() == 0 {
        Seq::empty()
    } else {
        let init = raw_orders_of(conv, orders.drop_last());
        let o = orders.last();
        match conv.pair_index_of(o.instrument_id) {
            Some(i) => init.push(raw_order_of(o, conv.pairs@[i])),
            None => init,
        }
    }
}

/// Normalizes open orders: each takes the configured pair of its instrument; orders on an
/// instrument that no configured pair trades are left out.
pub fn raw_orders(conv: &InstrumentConverter, orders: Vec<OkexPendingOrder>) -> (r: Vec<RawOrder>)
    ensures
        r@ == raw_orders_of(*conv, orders@),
{
    let mut out: Vec<RawOrder> = Vec::new();
    let mut i: usize = 0;
    while i < orders.len()
        invariant
            i <= orders@.len(),
            out@ == raw_orders_of(*conv, orders@.subrange(0, i as int)),
        decreases orders@.len() - i,
    {
        let o = &orders[i];
        proof {
            let s = orders@.subrange(0, i + 1);
            assert(s.drop_last() =~= orders@.subrange(0, i as int));
            assert(s.last() == orders@[i as int]);
        }
        match conv.find_pair(&o.instrument_id) {
            Some(pair) => {
                let client_id = o.client_order_id.clone();
                let order_id = o.order_id.clone();
                out.push(RawOrder {
                    internal_order_id: client_id,
                    order_id,
                    pair: pair.clone(),
                    side: o.side,
                    price: o.price,
                    amount: o.amount,
                    created_at: o.created_at,
                });
            },
            None => {},
        }
        i = i + 1;
    }
    proof {
        assert(orders@.subrange(0, orders@.len() as int) =~= orders@);
    }
    out
}

/// The trade falls within the day that ends at `now`, both ends included.
pub open spec fn within_last_day(t: TransactionResult, now: i64) -> bool {
    now - ONE_DAY_IN_MILLIS <= t.created_at <= now
}

/// A trade in normalized form on the given pair, with the given fee, taken in at `now`.
pub open spec fn raw_trade_of(t: TransactionResult, pair: Pair, fee: Dec, now: i64) -> RawTrade {
    RawTrade {
        trade_id: t.trade_id,
        order_id: t.order_id,
        pair,
        side: t.side,
        price: t.price,
        filled_amount: t.filled_amount,
        fee_amount: Some(fee),
        fee_currency: Some(t.fee_currency),
        liquidity: t.liquidity,
        internal_created_at: now,
        exchange_created_at: t.created_at,
    }
}

/// The venue's fee with its sign reversed: the venue reports a charge as negative and a
/// rebate as positive.
pub open spec fn reversed_fee(fee: Dec) -> Dec {
    Dec { mantissa: (-fee.mantissa) as i128, scale: fee.scale }
}

/// The trades of the last day on one pair, in order, fees reversed.
pub open spec fn pair_trades_of(trades: Seq<TransactionResult>, pair: Pair, now: i64) -> Seq<RawTrade>
    decreases trades.len(),
{
    if trades.len() == 0 {
        Seq::empty()
    } else {
        let init = pair_trades_of(trades.drop_last(), pair, now);
        let t = trades.last();
        if within_last_day(t, now) {
            init.push(raw_trade_of(t, pair, reversed_fee(t.fee), now))
        } else {
            init
        }
    }
}

/// Normalizes the trades of one pair: those of the day that ends at `now` are kept, in
/// order, with the fee's sign reversed so that a charge is positive.
pub fn pair_trades(trades: Vec<TransactionResult>, pair: &Pair, now: i64) -> (r: Vec<RawTrade>)
    requires
        now >= i64::MIN + ONE_DAY_IN_MILLIS,
        forall|i: int| 0 <= i < trades@.len() ==> (#[trigger] trades@[i]).fee.wf(),
    ensures
        r@ == pair_trades_of(trades@, *pair, now),
{
    let start = now - ONE_DAY_IN_MILLIS;
    let mut out: Vec<RawTrade> = Vec::new();
    let mut i: usize = 0;
    while i < trades.len()
        invariant
            i <= trades@.len(),
            start == now - ONE_DAY_IN_MILLIS,
            forall|i: int| 0 <= i < trades@.len() ==> (#[trigger] trades@[i]).fee.wf(),
            out@ == pair_trades_of(trades@.subrange(0, i as int), *pair, now),
        decreases trades@.len() - i,
    {
        let t = &trades[i];
        proof {
            let s = trades@.subrange(0, i + 1);
            assert(s.drop_last() =~= trades@.subrange(0, i as int));
            assert(s.last() == trades@[i as int]);
        }
        if t.created_at >= start && t.created_at <= now {
            let fee = t.fee.neg();
            out.push(RawTrade {
                trade_id: t.trade_id.clone(),
                order_id: t.order_id.clone(),
                pair: pair.clone(),
                side: t.side,
                price: t.price,
                filled_amount: t.filled_amount,
                fee_amount: Some(fee),
                fee_currency: Some(t.fee_currency.clone()),
                liquidity: t.liquidity,
                internal_created_at: now,
                exchange_created_at: t.created_at,
            });
        }
        i = i + 1;
    }
    proof {
        assert(trades@.subrange(0, trades@.len() as int) =~= trades@);
    }
    out
}

/// The trades of the last day on any configured pair, in order, fees as reported.
pub open spec fn all_trades_of(conv: InstrumentConverter, trades: Seq<TransactionResult>, now: i64) -> Seq<RawTrade>
    decreases trades.len(),
{
    if trades.len() == 0 {
        Seq::empty()
    } else {
        let init = all_trades_of(conv, trades.drop_last(), now);
        let t = trades.last();
        if within_last_day(t, now) {
            match conv.pair_index_of(t.instrument_id) {
                Some(k) => init.push(raw_trade_of(t, conv.pairs@[k], t.fee, now)),
                None => init,
            }
        } else {
            init
        }
    }
}

/// Normalizes the trades of all pairs: those of the day that ends at `now` whose instrument
/// a configured pair trades are kept, in order, each on that pair, with the fee as reported.
pub fn all_trades(conv: &InstrumentConverter, trades: Vec<TransactionResult>, now: i64) -> (r: Vec<RawTrade>)
    requires
        now >= i64::MIN + ONE_DAY_IN_MILLIS,
    ensures
        r@ == all_trades_of(*conv, trades@, now),
{
    let start = now - ONE_DAY_IN_MILLIS;
    let mut out: Vec<RawTrade> = Vec::new();
    let mut i: usize = 0;
    while i < trades.len()
        invariant
            i <= trades@.len(),
            start == now - ONE_DAY_IN_MILLIS,
            out@ == all_trades_of(*conv, trades@.subrange(0, i as int), now),
        decreases trades@.len() - i,
    {
        let t = &trades[i];
        proof {
            let s = trades@.subrange(0, i + 1);
            assert(s.drop_last() =~= trades@.subrange(0, i as int));
            assert(s.last() == trades@[i as int]);
        }
        if t.created_at >= start && t.created_at <= now {
            match conv.find_pair(&t.instrument_id) {
                Some(pair) => {
                    out.push(RawTrade {
                        trade_id: t.trade_id.clone(),
                        order_id: t.order_id.clone(),
                        pair: pair.clone(),
                        side: t.side,
                        price: t.price,
                        filled_amount: t.filled_amount,
                        fee_amount: Some(t.fee),
                        fee_currency: Some(t.fee_currency.clone()),
                        liquidity: t.liquidity,
                        internal_created_at: now,
                        exchange_created_at: t.created_at,
                    });
                },
                None => {},
            }
        }
        i = i + 1;
    }
    proof {
        assert(trades@.subrange(0, trades@.len() as int) =~= trades@);
    }
    out
}

} // verus!
