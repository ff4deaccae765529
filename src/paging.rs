//! Paginated bulk fetches: pages of a fixed size are fetched until a short one comes back,
//! each next request keyed by the last record fetched so far.
use vstd::prelude::*;
use crate::order::OkexPendingOrder;
use crate::trade::TransactionResult;

verus! {

/// Page size of the open-orders listing.
pub const FETCH_OPEN_ORDERS_COUNT: usize = 100;

/// Page size of the trade-history listing.
pub const FETCH_RECENT_TRADES_COUNT: usize = 100;

/// Where a paginated fetch stands.
#[derive(Debug)]
pub struct PageCursor {
    /// Records a full page holds.
    pub page_size: usize,
    /// The identifier the next request continues from, if any.
    pub cursor: Option<String>,
    /// No further page is to be fetched.
    pub finished: bool,
}

impl PageCursor {
    /// A fetch that has not begun: no cursor, not finished.
    pub fn new(page_size: usize) -> (r: PageCursor)
        requires
            page_size > 0,
        ensures
            r.page_size == page_size,
            r.cursor is None,
            !r.finished,
    {
        PageCursor { page_size, cursor: None, finished: false }
    }

    /// Records that a page of `fetched_count` records came back, the last of all records so
    /// far having identifier `last_id`. A page shorter than the page size ends the fetch,
    /// whatever cursor could still be taken; a full page moves the cursor to `last_id`.
    pub fn record_page(&mut self, fetched_count: usize, last_id: Option<String>)
        requires
            !old(self).finished,
        ensures
            final(self).page_size == old(self).page_size,
            fetched_count < old(self).page_size ==> final(self).finished
                && final(self).cursor == old(self).cursor,
            fetched_count >= old(self).page_size ==> !final(self).finished && final(self).cursor
                == (if last_id is Some { last_id } else { old(self).cursor }),
    {
        if fetched_count < self.page_size {
            self.finished = true;
        } else {
            match last_id {
                Some(id) => {
                    self.cursor = Some(id);
                },
                None => {},
            }
        }
    }
}

/// Appends a page of open orders and moves the cursor to the last order's id (the `before`
/// parameter of the next request); a short page ends the fetch.
pub fn add_orders_page(
    orders: &mut Vec<OkexPendingOrder>,
    page: Vec<OkexPendingOrder>,
    pager: &mut PageCursor,
)
    requires
        !old(pager).finished,
        old(pager).page_size > 0,
    ensures
        final(orders)@ == old(orders)@ + page@,
        final(pager).page_size == old(pager).page_size,
        final(pager).finished == (page@.len() < old(pager).page_size),
        page@.len() < old(pager).page_size ==> final(pager).cursor == old(pager).cursor,
        page@.len() >= old(pager).page_size ==> final(pager).cursor == Some(
            final(orders)@.last().order_id.0,
        ),
{
    let count = page.len();
    let mut page = page;
    orders.append(&mut page);
    let last_id = if orders.len() > 0 {
        Some(orders[orders.len() - 1].order_id.0.clone())
    } else {
        None
    };
    pager.record_page(count, last_id);
}

/// Appends a page of trades and moves the cursor to the last trade's bill id (the `after`
/// parameter of the next request); a short page ends the fetch.
pub fn add_trades_page(
    trades: &mut Vec<TransactionResult>,
    page: Vec<TransactionResult>,
    pager: &mut PageCursor,
)
    requires
        !old(pager).finished,
        old(pager).page_size > 0,
    ensures
        final(trades)@ == old(trades)@ + page@,
        final(pager).page_size == old(pager).page_size,
        final(pager).finished == (page@.len() < old(pager).page_size),
        page@.len() < old(pager).page_size ==> final(pager).cursor == old(pager).cursor,
        page@.len() >= old(pager).page_size ==> final(pager).cursor == Some(
            final(trades)@.last().bill_id,
        ),
{
    let count = page.len();
    let mut page = page;
    trades.append(&mut page);
    let last_id = if trades.len() > 0 {
        Some(trades[trades.len() - 1].bill_id.clone())
    } else {
        None
    };
    pager.record_page(count, last_id);
}

} // verus!
