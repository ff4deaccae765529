//! The decisions of the order lifecycle: the streaming path is tried first, and the REST
//! path takes over for what it left unresolved.
use vstd::prelude::*;
use crate::cancel::confirmed_ids;
use crate::error::DriverError;
use crate::instrument::OkexInstrumentId;
use crate::order::{OkexPendingOrder, OrderId, OrderResult};

verus! {

/// What follows a streaming cancellation of one order.
#[derive(Debug)]
pub enum CancelStep {
    /// The outcome is final and goes to the caller as it stands.
    Done(Result<(), DriverError>),
    /// Cancel the same order over REST, and return what that gives.
    FallbackRest,
}

/// Decides after a streaming cancellation: a success, or one of the idempotent outcomes
/// (not found, already cancelled, already filled), is final and returned as it is; any other
/// failure falls back to REST for the same order.
pub fn after_stream_cancel(res: Result<(), DriverError>) -> (r: CancelStep)
    ensures
        res is Ok ==> r == CancelStep::Done(Ok(())),
        res matches Err(e) ==> (if e.is_idempotent_spec() {
            r == CancelStep::Done(res)
        } else {
            r == CancelStep::FallbackRest
        }),
{
    match res {
        Ok(_) => CancelStep::Done(Ok(())),
        Err(e) => {
            if e.is_idempotent() {
                CancelStep::Done(Err(e))
            } else {
                CancelStep::FallbackRest
            }
        },
    }
}

/// The reply a waiter receives for a tagged streaming result: its acknowledgments, or a
/// venue error when the request failed as a whole (a nonzero code with no acknowledgment).
pub fn stream_reply(code: u64, msg: String, data: Vec<OrderResult>) -> (r: Result<Vec<OrderResult>, DriverError>)
    ensures
        data@.len() == 0 && code != 0 ==> r == Err::<Vec<OrderResult>, DriverError>(
            DriverError::Venue { code, msg },
        ),
        !(data@.len() == 0 && code != 0) ==> r == Ok::<Vec<OrderResult>, DriverError>(data),
{
    if data.len() == 0 && code != 0 {
        Err(DriverError::Venue { code, msg })
    } else {
        Ok(data)
    }
}

/// The outcome of a streaming cancellation of one order, from its reply: the last
/// acknowledgment decides; a reply without one is a generic error; a failed request stays
/// failed.
pub fn stream_cancel_result(reply: Result<Vec<OrderResult>, DriverError>) -> (r: Result<(), DriverError>)
    ensures
        reply matches Err(e) ==> r == Err::<(), DriverError>(e),
        reply matches Ok(results) ==> (if results@.len() == 0 {
            r matches Err(DriverError::Generic(_))
        } else {
            r == results@.last().outcome()
        }),
{
    match reply {
        Ok(results) => {
            if results.len() == 0 {
                Err(DriverError::Generic("Unexpected no order result in cancel order response".to_string()))
            } else {
                results[results.len() - 1].validate()
            }
        },
        Err(e) => Err(e),
    }
}

/// What follows a streaming batch cancellation.
#[derive(Debug)]
pub enum BatchCancelStep {
    /// Every order was confirmed: these are the cancelled ids.
    Done(Vec<OrderId>),
    /// Cancel these orders over REST, and return what that confirms.
    RestCancel(Vec<OrderId>),
}

/// Decides after a streaming batch cancellation of `order_ids`, whose result is the
/// cancelled ids and those left unresolved: all resolved, done; some left, REST takes those
/// alone; an outright error, REST takes the whole original set.
pub fn after_stream_batch_cancel(
    order_ids: Vec<OrderId>,
    stream: Result<(Vec<OrderId>, Vec<OrderId>), DriverError>,
) -> (r: BatchCancelStep)
    ensures
        stream matches Ok((c, n)) ==> (if n@.len() == 0 {
            r == BatchCancelStep::Done(c)
        } else {
            r == BatchCancelStep::RestCancel(n)
        }),
        stream is Err ==> r == BatchCancelStep::RestCancel(order_ids),
{
    match stream {
        Ok((cancelled, not_cancelled)) => {
            if not_cancelled.len() == 0 {
                BatchCancelStep::Done(cancelled)
            } else {
                BatchCancelStep::RestCancel(not_cancelled)
            }
        },
        Err(_) => BatchCancelStep::RestCancel(order_ids),
    }
}

/// Some id in `ids` names the order `id`.
pub open spec fn contains_id(ids: Seq<OrderId>, id: OrderId) -> bool {
    exists|k: int| 0 <= k < ids.len() && #[trigger] ids[k]@ == id@
}

/// The requested ids, in order, that `cancelled` does not name.
pub open spec fn unresolved(requested: Seq<OrderId>, cancelled: Seq<OrderId>) -> Seq<OrderId>
    decreases requested.len(),
{
    if requested.len() == 0 {
        Seq::empty()
    } else {
        let init = unresolved(requested.drop_last(), cancelled);
        if contains_id(cancelled, requested.last()) {
            init
        } else {
            init.push(requested.last())
        }
    }
}

/// Whether `ids` names the order `id`.
pub fn has_id(ids: &Vec<OrderId>, id: &OrderId) -> (r: bool)
    ensures
        r == contains_id(ids@, *id),
{
    let mut k: usize = 0;
    while k < ids.len()
        invariant
            k <= ids@.len(),
            forall|j: int| 0 <= j < k ==> #[trigger] ids@[j]@ != id@,
        decreases ids@.len() - k,
    {
        if ids[k] == *id {
            assert(ids@[k as int]@ == id@);
            return true;
        }
        k = k + 1;
    }
    false
}

/// Splits a streaming batch cancellation's acknowledgments into the cancelled ids (a clean
/// success or an idempotent outcome, in acknowledgment order) and the requested ids that
/// none of those names, in request order.
pub fn split_batch_cancel(requested: &Vec<OrderId>, results: &Vec<OrderResult>) -> (r: (
    Vec<OrderId>,
    Vec<OrderId>,
))
    ensures
        r.0@ == confirmed_ids(results@),
        r.1@ == unresolved(requested@, r.0@),
{
    let mut cancelled: Vec<OrderId> = Vec::new();
    crate::cancel::collect_confirmed(results, &mut cancelled);
    assert(cancelled@ =~= confirmed_ids(results@));
    let mut rest: Vec<OrderId> = Vec::new();
    let mut i: usize = 0;
    while i < requested.len()
        invariant
            i <= requested@.len(),
            rest@ == unresolved(requested@.subrange(0, i as int), cancelled@),
        decreases requested@.len() - i,
    {
        if !has_id(&cancelled, &requested[i]) {
            rest.push(requested[i].clone());
        }
        proof {
            let s = requested@.subrange(0, i + 1);
            assert(s.drop_last() =~= requested@.subrange(0, i as int));
            assert(s.last() == requested@[i as int]);
        }
        i = i + 1;
    }
    proof {
        assert(requested@.subrange(0, requested@.len() as int) =~= requested@);
    }
    (cancelled, rest)
}

/// Ids, in order, of the open orders on the instrument.
pub open spec fn ids_on(orders: Seq<OkexPendingOrder>, instrument_id: OkexInstrumentId) -> Seq<OrderId>
    decreases orders.len(),
{
    if orders.len() == 0 {
        Seq::empty()
    } else {
        let init = ids_on(orders.drop_last(), instrument_id);
        if orders.last().instrument_id.0@ == instrument_id.0@ {
            init.push(orders.last().order_id)
        } else {
            init
        }
    }
}

/// The ids of the open orders on one instrument, in the order the venue listed them.
pub fn order_ids_on(orders: &Vec<OkexPendingOrder>, instrument_id: &OkexInstrumentId) -> (r: Vec<OrderId>)
    ensures
        r@ == ids_on(orders@, *instrument_id),
{
    let mut out: Vec<OrderId> = Vec::new();
    let mut i: usize = 0;
    while i < orders.len()
        invariant
            i <= orders@.len(),
            out@ == ids_on(orders@.subrange(0, i as int), *instrument_id),
        decreases orders@.len() - i,
    {
        if orders[i].instrument_id == *instrument_id {
            out.push(orders[i].order_id.clone());
        }
        proof {
            let s = orders@.subrange(0, i + 1);
            assert(s.drop_last() =~= orders@.subrange(0, i as int));
            assert(s.last() == orders@[i as int]);
        }
        i = i + 1;
    }
    proof {
        assert(orders@.subrange(0, orders@.len() as int) =~= orders@);
    }
    out
}

} // verus!
