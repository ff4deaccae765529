//! Balances and the decimal figures of a margin snapshot, from the venue's account data.
use vstd::prelude::*;
use crate::decimal::{
    checked_add, checked_sub, decimal_saturating_difference, difference_of, or_zero,
    saturating_sub, sum_of, Dec,
};
use crate::error::DriverError;

verus! {

/// An absent figure counts as zero.
pub open spec fn figure(d: Option<Dec>) -> Dec {
    match d {
        Some(v) => v,
        None => Dec::zero_spec(),
    }
}

/// A present figure is a well-formed decimal.
pub open spec fn figure_wf(d: Option<Dec>) -> bool {
    d matches Some(v) ==> v.wf()
}

/// One asset's balance as the REST account endpoint reports it.
#[derive(Debug, Clone)]
pub struct OkexBalance {
    pub asset: String,
    pub cash_bal: Option<Dec>,
    pub avail_bal: Option<Dec>,
}

/// The asset balances of a balance payload: the details of its last account entry. No entry
/// at all, or no payload, is a balance error, never an empty account.
pub fn account_balances(data: Option<Vec<Vec<OkexBalance>>>) -> (r: Result<Vec<OkexBalance>, DriverError>)
    ensures
        data matches Some(accounts) ==> (if accounts@.len() > 0 {
            r == Ok::<Vec<OkexBalance>, DriverError>(accounts@.last())
        } else {
            r matches Err(DriverError::BalanceError(_))
        }),
        data is None ==> r matches Err(DriverError::BalanceError(_)),
{
    match data {
        Some(mut accounts) => match accounts.pop() {
            Some(details) => Ok(details),
            None => Err(DriverError::BalanceError("Failed fo fetch balances".to_string())),
        },
        None => Err(DriverError::BalanceError("Failed fo fetch balances".to_string())),
    }
}

/// One asset's balance in the account channel.
#[derive(Debug, Clone)]
pub struct OkexBalanceUpdate {
    pub asset: String,
    pub unrealized_pnl: Option<Dec>,
    pub cash_bal: Option<Dec>,
    pub avail_bal: Option<Dec>,
}

/// An account-channel update: per-asset balances and the account's margin telemetry.
#[derive(Debug, Clone)]
pub struct OkexBalancesUpdate {
    pub details: Vec<OkexBalanceUpdate>,
    pub exchange_initial_margin: Dec,
    pub total_collateral: Dec,
    pub notional_usd: Dec,
    pub total_maintenance_margin: Dec,
}

/// A normalized balance: `used` is `total - free`.
#[derive(Debug, Clone)]
pub struct RawBalance {
    pub symbol: String,
    pub free: Dec,
    pub used: Dec,
    pub total: Dec,
    /// Milliseconds since the epoch.
    pub last_updated: u64,
}

/// A normalized collateral balance.
#[derive(Debug, Clone)]
pub struct RawCollateral {
    pub symbol: String,
    pub free: Dec,
    pub used: Dec,
    pub total: Dec,
}

/// The decimal figures of a margin snapshot.
#[derive(Debug, Clone, Copy)]
pub struct MarginFigures {
    pub total_position_notional: Dec,
    pub total_collateral: Dec,
    /// Collateral less the initial margin, held at the decimal range.
    pub available_collateral: Dec,
    pub unrealized_pnl: Dec,
    pub total_maintenance_margin: Dec,
    pub exchange_initial_margin: Dec,
}

/// Builds a normalized balance from the cash balance (the total) and the available balance
/// (the free part), each zero when absent; `used` is their difference. A difference outside
/// the decimal range is a numeric failure, never a truncated figure.
pub fn normalized_balance(symbol: String, cash: Option<Dec>, avail: Option<Dec>, now: u64) -> (r: Result<RawBalance, DriverError>)
    requires
        figure_wf(cash),
        figure_wf(avail),
    ensures
        difference_of(figure(cash)@, figure(avail)@) is Some <==> r is Ok,
        r is Err ==> r matches Err(DriverError::NumericConversionFailure(_)),
        r matches Ok(b) ==> b.symbol == symbol && b.total == figure(cash) && b.free == figure(avail)
            && b.used@ == difference_of(figure(cash)@, figure(avail)@)->0 && b.used.wf()
            && b.last_updated == now,
{
    let total = or_zero(cash);
    let free = or_zero(avail);
    match checked_sub(total, free) {
        Some(used) => Ok(RawBalance { symbol, free, used, total, last_updated: now }),
        None => Err(DriverError::NumericConversionFailure("balance out of decimal range".to_string())),
    }
}

impl OkexBalance {
    pub open spec fn wf(&self) -> bool {
        figure_wf(self.cash_bal) && figure_wf(self.avail_bal)
    }

    /// The balance as a spending balance (see `normalized_balance`).
    pub fn to_raw_balance(self, now: u64) -> (r: Result<RawBalance, DriverError>)
        requires
            self.wf(),
        ensures
            difference_of(figure(self.cash_bal)@, figure(self.avail_bal)@) is Some <==> r is Ok,
            r is Err ==> r matches Err(DriverError::NumericConversionFailure(_)),
            r matches Ok(b) ==> b.symbol == self.asset && b.total == figure(self.cash_bal)
                && b.free == figure(self.avail_bal) && b.used@ == difference_of(
                figure(self.cash_bal)@,
                figure(self.avail_bal)@,
            )->0 && b.last_updated == now,
    {
        normalized_balance(self.asset, self.cash_bal, self.avail_bal, now)
    }

    /// The balance as collateral, normalized as a spending balance is (see
    /// `normalized_balance`).
    pub fn to_raw_collateral(self) -> (r: Result<RawCollateral, DriverError>)
        requires
            self.wf(),
        ensures
            difference_of(figure(self.cash_bal)@, figure(self.avail_bal)@) is Some <==> r is Ok,
            r is Err ==> r matches Err(DriverError::NumericConversionFailure(_)),
            r matches Ok(c) ==> c.symbol == self.asset && c.total == figure(self.cash_bal)
                && c.free == figure(self.avail_bal) && c.used@ == difference_of(
                figure(self.cash_bal)@,
                figure(self.avail_bal)@,
            )->0,
    {
        match normalized_balance(self.asset, self.cash_bal, self.avail_bal, 0) {
            Ok(b) => Ok(RawCollateral { symbol: b.symbol, free: b.free, used: b.used, total: b.total }),
            Err(e) => Err(e),
        }
    }
}

impl OkexBalancesUpdate {
    pub open spec fn wf(&self) -> bool {
        &&& self.exchange_initial_margin.wf()
        &&& self.total_collateral.wf()
        &&& self.notional_usd.wf()
        &&& self.total_maintenance_margin.wf()
        &&& forall|i: int|
            0 <= i < self.details@.len() ==> figure_wf(#[trigger] self.details@[i].unrealized_pnl)
                && figure_wf(self.details@[i].cash_bal) && figure_wf(self.details@[i].avail_bal)
    }
}

/// The unrealized PnL of the details summed in order from zero, absent ones counting as
/// zero; `None` once a partial sum leaves the decimal range.
pub open spec fn pnl_total(details: Seq<OkexBalanceUpdate>) -> Option<(int, int)>
    decreases details.len(),
{
    if details.len() == 0 {
        Some((0int, 0int))
    } else {
        match pnl_total(details.drop_last()) {
            Some(s) => sum_of(s, figure(details.last().unrealized_pnl)@),
            None => None,
        }
    }
}

/// The normalized balances of every asset in the update, in order.
pub open spec fn update_balances_ok(details: Seq<OkexBalanceUpdate>) -> bool {
    forall|i: int|
        0 <= i < details.len() ==> (difference_of(
            figure(#[trigger] details[i].cash_bal)@,
            figure(details[i].avail_bal)@,
        ) is Some)
}

impl OkexBalancesUpdate {
    /// The normalized balance of each asset in the update, in order (see
    /// `normalized_balance`); the first asset whose difference leaves the decimal range fails
    /// the whole list.
    pub fn to_raw_balances(&self, now: u64) -> (r: Result<Vec<RawBalance>, DriverError>)
        requires
            self.wf(),
        ensures
            r is Ok <==> update_balances_ok(self.details@),
            r is Err ==> r matches Err(DriverError::NumericConversionFailure(_)),
            r matches Ok(v) ==> v@.len() == self.details@.len() && forall|i: int|
                0 <= i < v@.len() ==> {
                    let d = #[trigger] self.details@[i];
                    &&& v@[i].symbol@ == d.asset@
                    &&& v@[i].total == figure(d.cash_bal)
                    &&& v@[i].free == figure(d.avail_bal)
                    &&& v@[i].used@ == difference_of(figure(d.cash_bal)@, figure(d.avail_bal)@)->0
                    &&& v@[i].last_updated == now
                },
    {
        let mut out: Vec<RawBalance> = Vec::new();
        let mut i: usize = 0;
        while i < self.details.len()
            invariant
                self.wf(),
                i <= self.details@.len(),
                out@.len() == i,
                update_balances_ok(self.details@.subrange(0, i as int)),
                forall|k: int|
                    0 <= k < i ==> {
                        let d = #[trigger] self.details@[k];
                        &&& out@[k].symbol@ == d.asset@
                        &&& out@[k].total == figure(d.cash_bal)
                        &&& out@[k].free == figure(d.avail_bal)
                        &&& out@[k].used@ == difference_of(figure(d.cash_bal)@, figure(d.avail_bal)@)->0
                        &&& out@[k].last_updated == now
                    },
            decreases self.details@.len() - i,
        {
            let d = &self.details[i];
            assert(figure_wf(self.details@[i as int].unrealized_pnl));
            let b = normalized_balance(d.asset.clone(), d.cash_bal, d.avail_bal, now);
            match b {
                Ok(b) => {
                    out.push(b);
                },
                Err(e) => {
                    proof {
                        assert(!update_balances_ok(self.details@)) by {
                            assert(!(difference_of(
                                figure(self.details@[i as int].cash_bal)@,
                                figure(self.details@[i as int].avail_bal)@,
                            ) is Some));
                        }
                    }
                    return Err(e);
                },
            }
            proof {
                assert forall|k: int| 0 <= k < i + 1 implies (difference_of(
                    figure(#[trigger] self.details@.subrange(0, i + 1)[k].cash_bal)@,
                    figure(self.details@.subrange(0, i + 1)[k].avail_bal)@,
                ) is Some) by {
                    if k < i {
                        assert(self.details@.subrange(0, i as int)[k] == self.details@[k]);
                    }
                }
            }
            i = i + 1;
        }
        proof {
            assert(self.details@.subrange(0, self.details@.len() as int) =~= self.details@);
        }
        Ok(out)
    }

    /// The decimal figures of the margin snapshot: collateral, notional, maintenance and
    /// initial margin as reported; available collateral is collateral less initial margin,
    /// held at the decimal range; unrealized PnL is the sum over the assets, absent ones
    /// counting as zero. A sum that leaves the decimal range fails the whole snapshot.
    pub fn margin_figures(&self) -> (r: Result<MarginFigures, DriverError>)
        requires
            self.wf(),
        ensures
            r is Ok <==> pnl_total(self.details@) is Some,
            r is Err ==> r matches Err(DriverError::NumericConversionFailure(_)),
            r matches Ok(m) ==> {
                &&& m.total_position_notional == self.notional_usd
                &&& m.total_collateral == self.total_collateral
                &&& m.available_collateral@ == decimal_saturating_difference(
                    self.total_collateral@,
                    self.exchange_initial_margin@,
                )
                &&& m.unrealized_pnl@ == pnl_total(self.details@)->0
                &&& m.total_maintenance_margin == self.total_maintenance_margin
                &&& m.exchange_initial_margin == self.exchange_initial_margin
            },
    {
        let available_collateral = saturating_sub(self.total_collateral, self.exchange_initial_margin);
        let mut total = Dec::zero();
        let mut i: usize = 0;
        while i < self.details.len()
            invariant
                self.wf(),
                i <= self.details@.len(),
                total.wf(),
                pnl_total(self.details@.subrange(0, i as int)) == Some(total@),
            decreases self.details@.len() - i,
        {
            let ghost s = self.details@.subrange(0, i + 1);
            proof {
                assert(s.drop_last() =~= self.details@.subrange(0, i as int));
                assert(s.last() == self.details@[i as int]);
            }
            let upl = or_zero(self.details[i].unrealized_pnl);
            match checked_add(total, upl) {
                Some(t) => {
                    total = t;
                },
                None => {
                    proof {
                        lemma_pnl_total_none(self.details@, i as int + 1);
                    }
                    return Err(DriverError::NumericConversionFailure("unrealized PnL out of decimal range".to_string()));
                },
            }
            i = i + 1;
        }
        proof {
            assert(self.details@.subrange(0, self.details@.len() as int) =~= self.details@);
        }
        Ok(MarginFigures {
            total_position_notional: self.notional_usd,
            total_collateral: self.total_collateral,
            available_collateral,
            unrealized_pnl: total,
            total_maintenance_margin: self.total_maintenance_margin,
            exchange_initial_margin: self.exchange_initial_margin,
        })
    }
}

/// Once a partial sum leaves the range, the whole sum does.
proof fn lemma_pnl_total_none(details: Seq<OkexBalanceUpdate>, n: int)
    requires
        0 <= n <= details.len(),
        pnl_total(details.subrange(0, n)) is None,
    ensures
        pnl_total(details) is None,
    decreases details.len() - n,
{
    if n < details.len() {
        let s = details.subrange(0, n + 1);
        assert(s.drop_last() =~= details.subrange(0, n));
        lemma_pnl_total_none(details, n + 1);
    } else {
        assert(details.subrange(0, n) =~= details);
    }
}

} // verus!
