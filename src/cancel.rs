//! Cancellation: reading the venue's answers, splitting a batch into the venue's chunks,
//! and deciding between the streaming path and the REST fallback.
use vstd::prelude::*;
use crate::error::DriverError;
use crate::order::{OkexRestResponse, OrderId, OrderResult};

verus! {

/// The venue cancels at most this many orders in one batch request.
pub const CANCEL_ORDERS_BATCH_COUNT: usize = 20;

/// Reads the venue's answer to a single REST cancellation. A present acknowledgment is
/// checked by its code; a missing one is a generic error, never a success.
pub fn rest_cancel_result(res: OkexRestResponse<Vec<OrderResult>>) -> (r: Result<(), DriverError>)
    ensures
        match res.data {
            Some(results) => if results@.len() == 0 {
                r matches Err(DriverError::Generic(_))
            } else {
                r == results@.last().outcome()
            },
            None => r matches Err(DriverError::Generic(_)),
        },
{
    match res.data {
        Some(results) => {
            if results.len() == 0 {
                Err(DriverError::Generic("Unexpected no order result in cancel order response".to_string()))
            } else {
                results[results.len() - 1].validate()
            }
        },
        None => Err(DriverError::Generic("Unexpected empty cancel order response".to_string())),
    }
}

/// Number of chunks for `n` orders.
pub open spec fn chunk_count(n: int) -> int {
    (n + CANCEL_ORDERS_BATCH_COUNT - 1) / CANCEL_ORDERS_BATCH_COUNT as int
}

/// Splits order ids into the venue's batches, in order: each holds the next
/// `CANCEL_ORDERS_BATCH_COUNT` ids, the last one what remains. No ids, no batches.
pub fn cancel_batches(ids: &Vec<OrderId>) -> (r: Vec<Vec<OrderId>>)
    ensures
        r@.len() == chunk_count(ids@.len() as int),
        forall|k: int|
            0 <= k < r@.len() ==> #[trigger] r@[k]@ == ids@.subrange(
                k * CANCEL_ORDERS_BATCH_COUNT,
                if (k + 1) * CANCEL_ORDERS_BATCH_COUNT <= ids@.len() {
                    (k + 1) * CANCEL_ORDERS_BATCH_COUNT as int
                } else {
                    ids@.len() as int
                },
            ),
{
    let n = ids.len();
    let mut r: Vec<Vec<OrderId>> = Vec::new();
    let mut start: usize = 0;
    while start < n
        invariant
            n == ids@.len(),
            start <= n,
            start == r@.len() * CANCEL_ORDERS_BATCH_COUNT || (start == n && r@.len() == chunk_count(n as int)),
            start < n ==> r@.len() * CANCEL_ORDERS_BATCH_COUNT < n,
            r@.len() == if start == n { chunk_count(n as int) } else { start as int / CANCEL_ORDERS_BATCH_COUNT as int },
            forall|k: int|
                0 <= k < r@.len() ==> #[trigger] r@[k]@ == ids@.subrange(
                    k * CANCEL_ORDERS_BATCH_COUNT,
                    if (k + 1) * CANCEL_ORDERS_BATCH_COUNT <= ids@.len() {
                        (k + 1) * CANCEL_ORDERS_BATCH_COUNT as int
                    } else {
                        ids@.len() as int
                    },
                ),
        decreases n - start,
    {
        let end: usize = if n - start >= CANCEL_ORDERS_BATCH_COUNT {
            start + CANCEL_ORDERS_BATCH_COUNT
        } else {
            n
        };
        let mut chunk: Vec<OrderId> = Vec::new();
        let mut i: usize = start;
        while i < end
            invariant
                start <= i <= end,
                end <= n,
                n == ids@.len(),
                chunk@ == ids@.subrange(start as int, i as int),
            decreases end - i,
        {
            chunk.push(ids[i].clone());
            proof {
                assert(ids@.subrange(start as int, i + 1) =~= ids@.subrange(start as int, i as int).push(ids@[i as int]));
            }
            i = i + 1;
        }
        let ghost k = r@.len() as int;
        r.push(chunk);
        proof {
            assert(r@[k]@ == ids@.subrange(start as int, end as int));
        }
        start = end;
    }
    r
}

/// Ids of the acknowledgments that confirm a cancellation, in order.
pub open spec fn confirmed_ids(results: Seq<OrderResult>) -> Seq<OrderId>
    decreases results.len(),
{
    if results.len() == 0 {
        Seq::empty()
    } else {
        let init = confirmed_ids(results.drop_last());
        if results.last().confirms_cancel() {
            init.push(results.last().order_id)
        } else {
            init
        }
    }
}

/// What one chunk's answer confirms: nothing for a failed call or an empty envelope.
pub open spec fn chunk_confirmed(res: Result<OkexRestResponse<Vec<OrderResult>>, DriverError>) -> Seq<OrderId> {
    match res {
        Ok(resp) => match resp.data {
            Some(results) => confirmed_ids(results@),
            None => Seq::empty(),
        },
        Err(_) => Seq::empty(),
    }
}

/// What all chunks' answers confirm, chunk after chunk.
pub open spec fn batch_confirmed(responses: Seq<Result<OkexRestResponse<Vec<OrderResult>>, DriverError>>) -> Seq<OrderId>
    decreases responses.len(),
{
    if responses.len() == 0 {
        Seq::empty()
    } else {
        batch_confirmed(responses.drop_last()) + chunk_confirmed(responses.last())
    }
}

/// Some acknowledgment in the list confirms the cancellation of the order.
pub open spec fn confirms_order(results: Seq<OrderResult>, id: OrderId) -> bool {
    exists|k: int| 0 <= k < results.len() && (#[trigger] results[k]).confirms_cancel() && results[k].order_id == id
}

/// The chunk's call succeeded with a payload in which some acknowledgment confirms the
/// cancellation of the order.
pub open spec fn chunk_confirms(res: Result<OkexRestResponse<Vec<OrderResult>>, DriverError>, id: OrderId) -> bool {
    match res {
        Ok(resp) => match resp.data {
            Some(results) => confirms_order(results@, id),
            None => false,
        },
        Err(_) => false,
    }
}

/// An id is among those a list of acknowledgments confirms exactly when one of them, a
/// clean success or an idempotent outcome, names it.
pub proof fn lemma_confirmed_ids_members(results: Seq<OrderResult>)
    ensures
        forall|id: OrderId| #[trigger] confirmed_ids(results).contains(id) <==> confirms_order(results, id),
    decreases results.len(),
{
    if results.len() > 0 {
        let init = results.drop_last();
        lemma_confirmed_ids_members(init);
        assert forall|id: OrderId| #[trigger] confirmed_ids(results).contains(id) <==> confirms_order(results, id) by {
            let last = results.last();
            if confirms_order(init, id) {
                let k = choose|k: int| 0 <= k < init.len() && (#[trigger] init[k]).confirms_cancel() && init[k].order_id == id;
                assert(results[k] == init[k]);
            }
            if confirms_order(results, id) {
                let k = choose|k: int| 0 <= k < results.len() && (#[trigger] results[k]).confirms_cancel() && results[k].order_id == id;
                if k < results.len() - 1 {
                    assert(init[k] == results[k]);
                }
            }
            if last.confirms_cancel() {
                let ci = confirmed_ids(init);
                assert(confirmed_ids(results) == ci.push(last.order_id));
                if ci.push(last.order_id).contains(id) {
                    let j = choose|j: int| 0 <= j < ci.len() + 1 && ci.push(last.order_id)[j] == id;
                    if j < ci.len() {
                        assert(ci[j] == id);
                    }
                }
                if ci.contains(id) {
                    let j = choose|j: int| 0 <= j < ci.len() && ci[j] == id;
                    assert(ci.push(last.order_id)[j] == id);
                }
                if last.order_id == id {
                    assert(ci.push(last.order_id)[ci.len() as int] == id);
                }
            }
        }
    }
}

/// A batch cancellation's result holds an order id exactly when some chunk whose call
/// succeeded with a payload holds an acknowledgment for it that is a clean success or an
/// idempotent outcome: a chunk whose call failed, or whose envelope is empty, contributes
/// no id and takes none away from the other chunks.
pub proof fn lemma_batch_confirmed_members(responses: Seq<Result<OkexRestResponse<Vec<OrderResult>>, DriverError>>)
    ensures
        forall|id: OrderId| #[trigger] batch_confirmed(responses).contains(id) <==> exists|j: int|
            0 <= j < responses.len() && chunk_confirms(#[trigger] responses[j], id),
    decreases responses.len(),
{
    if responses.len() > 0 {
        let init = responses.drop_last();
        let last = responses.last();
        lemma_batch_confirmed_members(init);
        match last {
            Ok(resp) => match resp.data {
                Some(results) => lemma_confirmed_ids_members(results@),
                None => {},
            },
            Err(_) => {},
        }
        assert forall|id: OrderId| #[trigger] batch_confirmed(responses).contains(id) <==> exists|j: int|
            0 <= j < responses.len() && chunk_confirms(#[trigger] responses[j], id) by {
            let b = batch_confirmed(init);
            let c = chunk_confirmed(last);
            assert(batch_confirmed(responses) == b + c);
            assert(chunk_confirms(last, id) <==> c.contains(id));
            if (b + c).contains(id) {
                let k = choose|k: int| 0 <= k < (b + c).len() && (b + c)[k] == id;
                if k < b.len() {
                    assert(b[k] == id);
                    assert(b.contains(id));
                    let j = choose|j: int| 0 <= j < init.len() && chunk_confirms(#[trigger] init[j], id);
                    assert(responses[j] == init[j]);
                    assert(chunk_confirms(responses[j], id));
                } else {
                    assert(c[k - b.len()] == id);
                    assert(c.contains(id));
                    assert(responses[responses.len() - 1] == last);
                    assert(chunk_confirms(responses[responses.len() - 1], id));
                }
            }
            if exists|j: int| 0 <= j < responses.len() && chunk_confirms(#[trigger] responses[j], id) {
                let j = choose|j: int| 0 <= j < responses.len() && chunk_confirms(#[trigger] responses[j], id);
                if j < responses.len() - 1 {
                    assert(init[j] == responses[j]);
                    assert(b.contains(id));
                    let k = choose|k: int| 0 <= k < b.len() && b[k] == id;
                    assert((b + c)[k] == id);
                } else {
                    assert(c.contains(id));
                    let k = choose|k: int| 0 <= k < c.len() && c[k] == id;
                    assert((b + c)[b.len() + k] == id);
                }
            }
        }
    }
}

/// The ids confirmed in one list of acknowledgments.
pub fn collect_confirmed(results: &Vec<OrderResult>, out: &mut Vec<OrderId>)
    ensures
        final(out)@ == old(out)@ + confirmed_ids(results@),
{
    let mut j: usize = 0;
    while j < results.len()
        invariant
            j <= results@.len(),
            out@ == old(out)@ + confirmed_ids(results@.subrange(0, j as int)),
        decreases results@.len() - j,
    {
        let outcome = results[j].validate();
        let confirmed = match &outcome {
            Ok(_) => true,
            Err(e) => e.is_idempotent(),
        };
        if confirmed {
            out.push(results[j].order_id.clone());
        }
        proof {
            let s = results@.subrange(0, j + 1);
            assert(s.drop_last() =~= results@.subrange(0, j as int));
            assert(s.last() == results@[j as int]);
            assert(out@ =~= old(out)@ + confirmed_ids(s));
        }
        j = j + 1;
    }
    proof {
        assert(results@.subrange(0, results@.len() as int) =~= results@);
    }
}

/// The ids that a REST batch cancellation confirms, from the answers of all its chunks: a
/// chunk whose call failed or whose envelope is empty confirms nothing, and never aborts
/// the others; within a chunk, an order counts when its acknowledgment is a clean success
/// or one of the idempotent outcomes.
pub fn cancelled_in_batches(responses: &Vec<Result<OkexRestResponse<Vec<OrderResult>>, DriverError>>) -> (r: Vec<OrderId>)
    ensures
        r@ == batch_confirmed(responses@),
{
    let mut out: Vec<OrderId> = Vec::new();
    let mut i: usize = 0;
    while i < responses.len()
        invariant
            i <= responses@.len(),
            out@ == batch_confirmed(responses@.subrange(0, i as int)),
        decreases responses@.len() - i,
    {
        let ghost prev = out@;
        match &responses[i] {
            Ok(resp) => match &resp.data {
                Some(results) => collect_confirmed(results, &mut out),
                None => {},
            },
            Err(_) => {},
        }
        proof {
            let s = responses@.subrange(0, i + 1);
            assert(s.drop_last() =~= responses@.subrange(0, i as int));
            assert(s.last() == responses@[i as int]);
            assert(out@ =~= prev + chunk_confirmed(responses@[i as int]));
        }
        i = i + 1;
    }
    proof {
        assert(responses@.subrange(0, responses@.len() as int) =~= responses@);
    }
    out
}

} // verus!
