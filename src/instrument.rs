//! Venue instruments, their sizing rules, and how they match internal trading pairs.
use vstd::prelude::*;
use crate::decimal::{
    checked_div, checked_mul, decimal_quotient, exact_quotient, lemma_pow10_add,
    lemma_pow10_positive, lifts, pow10, product_of, quotient_bounds, representable, same_value,
    view_opt, Dec,
};

verus! {

/// The venue's identifier of an instrument, such as `ETH-USDT-SWAP`.
#[derive(Debug, Hash)]
pub struct OkexInstrumentId(pub String);

impl Clone for OkexInstrumentId {
    fn clone(&self) -> (r: OkexInstrumentId)
        ensures
            r == *self,
    {
        OkexInstrumentId(self.0.clone())
    }
}

impl PartialEq for OkexInstrumentId {
    fn eq(&self, other: &OkexInstrumentId) -> (r: bool)
        ensures
            r == (self.0@ == other.0@),
    {
        self.0 == other.0
    }
}

impl vstd::std_specs::cmp::PartialEqSpecImpl for OkexInstrumentId {
    open spec fn obeys_eq_spec() -> bool {
        true
    }

    open spec fn eq_spec(&self, other: &OkexInstrumentId) -> bool {
        self.0@ == other.0@
    }
}

impl Eq for OkexInstrumentId {}

impl OkexInstrumentId {
    pub fn as_str(&self) -> (r: &str)
        ensures
            r@ == self.0@,
    {
        self.0.as_str()
    }
}

/// How a perpetual contract is sized.
#[derive(Debug, Clone, Copy, PartialEq, Eq, Structural)]
pub enum OkexContractType {
    /// Contract value currency is base and currency to settle is quote
    Linear,
    /// Contract value currency is quote and currency to settle is base
    Inverse,
}

/// An instrument as the venue lists it.
#[derive(Debug, Clone)]
pub enum OkexInstrument {
    FuturePerpetual {
        settle_asset: String,
        contract_value_asset: String,
        instrument_id: OkexInstrumentId,
        contract_type: OkexContractType,
        contract_value: Dec,
    },
    Spot { base: String, quote: String, instrument_id: OkexInstrumentId },
}

/// The kind of an internal trading pair.
#[derive(Debug, Clone, Copy, PartialEq, Eq, Structural)]
pub enum InstrumentKind {
    Spot,
    FuturePerpetual,
}

/// An internal trading pair: its kind, base asset and quote asset.
#[derive(Debug)]
pub struct Pair {
    pub kind: InstrumentKind,
    pub base: String,
    pub quote: String,
}

impl Clone for Pair {
    fn clone(&self) -> (r: Pair)
        ensures
            r == *self,
    {
        Pair { kind: self.kind, base: self.base.clone(), quote: self.quote.clone() }
    }
}

/// Venue instrument categories.
#[derive(Debug, Clone, Copy, PartialEq, Eq, Structural)]
pub enum OkexInstrumentType {
    Spot,
    Margin,
    Swap,
    Futures,
    Option,
}

impl OkexInstrumentType {
    pub open spec fn name_spec(self) -> Seq<char> {
        match self {
            OkexInstrumentType::Spot => "SPOT"@,
            OkexInstrumentType::Margin => "MARGIN"@,
            OkexInstrumentType::Swap => "SWAP"@,
            OkexInstrumentType::Futures => "FUTURES"@,
            OkexInstrumentType::Option => "OPTION"@,
        }
    }

    /// The name the venue uses for the category.
    pub fn as_str(&self) -> (r: &'static str)
        ensures
            r@ == self.name_spec(),
    {
        match self {
            OkexInstrumentType::Spot => "SPOT",
            OkexInstrumentType::Margin => "MARGIN",
            OkexInstrumentType::Swap => "SWAP",
            OkexInstrumentType::Futures => "FUTURES",
            OkexInstrumentType::Option => "OPTION",
        }
    }
}

/// The arguments of an order-channel subscription.
#[derive(Debug, Clone)]
pub struct OrdersArg {
    pub instrument_id: OkexInstrumentId,
    pub instrument_type: OkexInstrumentType,
}

impl OrdersArg {
    /// The order channel of an instrument.
    pub fn from(instrument: &OkexInstrument) -> (r: OrdersArg)
        ensures
            r.instrument_id == instrument.id_spec(),
            r.instrument_type == (match instrument {
                OkexInstrument::Spot { .. } => OkexInstrumentType::Spot,
                OkexInstrument::FuturePerpetual { .. } => OkexInstrumentType::Swap,
            }),
    {
        match instrument {
            OkexInstrument::Spot { instrument_id, .. } => OrdersArg {
                instrument_id: instrument_id.clone(),
                instrument_type: OkexInstrumentType::Spot,
            },
            OkexInstrument::FuturePerpetual { instrument_id, .. } => OrdersArg {
                instrument_id: instrument_id.clone(),
                instrument_type: OkexInstrumentType::Swap,
            },
        }
    }
}

impl OkexInstrument {
    /// The contract value is a well-formed decimal.
    pub open spec fn wf(&self) -> bool {
        match self {
            OkexInstrument::FuturePerpetual { contract_value, .. } => contract_value.wf(),
            OkexInstrument::Spot { .. } => true,
        }
    }

    pub open spec fn id_spec(&self) -> OkexInstrumentId {
        match self {
            OkexInstrument::Spot { instrument_id, .. } => *instrument_id,
            OkexInstrument::FuturePerpetual { instrument_id, .. } => *instrument_id,
        }
    }

    /// The exchange size for an internal amount: the amount itself on spot, the amount in
    /// contracts on a linear perpetual, and `amount * price / contract_value` on an inverse one.
    pub open spec fn exchange_size(&self, amount: (int, int), price: (int, int)) -> Option<(int, int)> {
        match self {
            OkexInstrument::Spot { .. } => Some(amount),
            OkexInstrument::FuturePerpetual { contract_type, contract_value, .. } => {
                if contract_value.mantissa == 0 {
                    None
                } else {
                    match contract_type {
                        OkexContractType::Linear => decimal_quotient(amount, contract_value@),
                        OkexContractType::Inverse => match product_of(amount, price) {
                            Some(notional) => decimal_quotient(notional, contract_value@),
                            None => None,
                        },
                    }
                }
            },
        }
    }

    /// The internal amount for an exchange size: the size itself on spot,
    /// `size * contract_value` on a linear perpetual, and `size * contract_value / price` on an
    /// inverse one.
    pub open spec fn internal_amount(&self, size: (int, int), price: (int, int)) -> Option<(int, int)> {
        match self {
            OkexInstrument::Spot { .. } => Some(size),
            OkexInstrument::FuturePerpetual { contract_type, contract_value, .. } => {
                match contract_type {
                    OkexContractType::Linear => product_of(size, contract_value@),
                    OkexContractType::Inverse => if price.0 == 0 {
                        None
                    } else {
                        match product_of(size, contract_value@) {
                            Some(value) => decimal_quotient(value, price),
                            None => None,
                        }
                    },
                }
            },
        }
    }

    /// What is known of an exchange size `r` for the amount: it is `exchange_size`, and where
    /// that divides, it is absent for a zero divisor and has the exact quotient's value
    /// whenever that is representable.
    pub open spec fn exchange_size_result(&self, amount: (int, int), price: (int, int), r: Option<(int, int)>) -> bool {
        &&& r == self.exchange_size(amount, price)
        &&& match self {
            OkexInstrument::Spot { .. } => true,
            OkexInstrument::FuturePerpetual { contract_type, contract_value, .. } => {
                contract_value.mantissa != 0 ==> match contract_type {
                    OkexContractType::Linear => quotient_bounds(r, amount, contract_value@),
                    OkexContractType::Inverse => match product_of(amount, price) {
                        Some(notional) => quotient_bounds(r, notional, contract_value@),
                        None => true,
                    },
                }
            },
        }
    }

    /// What is known of an internal amount `r` for the size: it is `internal_amount`, and on
    /// an inverse perpetual with a nonzero price it has the exact quotient's value whenever
    /// that is representable.
    pub open spec fn internal_amount_result(&self, size: (int, int), price: (int, int), r: Option<(int, int)>) -> bool {
        &&& r == self.internal_amount(size, price)
        &&& match self {
            OkexInstrument::FuturePerpetual {
                contract_type: OkexContractType::Inverse,
                contract_value,
                ..
            } => price.0 != 0 ==> match product_of(size, contract_value@) {
                Some(value) => quotient_bounds(r, value, price),
                None => true,
            },
            _ => true,
        }
    }

    /// The venue's identifier of the instrument.
    pub fn id(&self) -> (r: OkexInstrumentId)
        ensures
            r == self.id_spec(),
    {
        match self {
            OkexInstrument::Spot { instrument_id, .. } => instrument_id.clone(),
            OkexInstrument::FuturePerpetual { instrument_id, .. } => instrument_id.clone(),
        }
    }

    /// Converts internal order amount to exchange size
    pub fn to_exchange_size(&self, amount: Dec, price: Dec) -> (r: Option<Dec>)
        requires
            self.wf(),
            amount.wf(),
            price.wf(),
        ensures
            lifts(r, self.exchange_size(amount@, price@)),
            self.exchange_size_result(amount@, price@, view_opt(r)),
            r is Some ==> r->0.wf(),
            self is Spot ==> r == Some(amount),
    {
        match self {
            OkexInstrument::Spot { .. } => Some(amount),
            OkexInstrument::FuturePerpetual { contract_value, contract_type, .. } => {
                if contract_value.is_zero() {
                    None
                } else {
                    match contract_type {
                        OkexContractType::Linear => checked_div(amount, *contract_value),
                        OkexContractType::Inverse => match checked_mul(amount, price) {
                            Some(notional) => checked_div(notional, *contract_value),
                            None => None,
                        },
                    }
                }
            },
        }
    }

    /// Converts exchange order size to internal amount
    pub fn to_internal_amount(&self, size: Dec, price: Dec) -> (r: Option<Dec>)
        requires
            self.wf(),
            size.wf(),
            price.wf(),
        ensures
            lifts(r, self.internal_amount(size@, price@)),
            self.internal_amount_result(size@, price@, view_opt(r)),
            r is Some ==> r->0.wf(),
            self is Spot ==> r == Some(size),
    {
        match self {
            OkexInstrument::Spot { .. } => Some(size),
            OkexInstrument::FuturePerpetual { contract_value, contract_type, .. } => {
                match contract_type {
                    OkexContractType::Linear => checked_mul(size, *contract_value),
                    OkexContractType::Inverse => {
                        if price.is_zero() {
                            None
                        } else {
                            match checked_mul(size, *contract_value) {
                                Some(value) => checked_div(value, price),
                                None => None,
                            }
                        }
                    },
                }
            },
        }
    }
}

impl OkexInstrument {
    /// The contract value of a linear perpetual.
    pub open spec fn linear_contract_value(&self) -> Option<Dec> {
        match self {
            OkexInstrument::FuturePerpetual { contract_type, contract_value, .. } => {
                if *contract_type == OkexContractType::Linear {
                    Some(*contract_value)
                } else {
                    None
                }
            },
            OkexInstrument::Spot { .. } => None,
        }
    }
}

/// On a linear perpetual with a nonzero contract value, converting an amount to an exchange
/// size and back gives the amount again, whenever the amount divides exactly into a
/// representable number of contracts and multiplying the size back needs no rounding.
pub proof fn lemma_linear_round_trip(instrument: OkexInstrument, amount: Dec, price: Dec, size: Dec)
    requires
        instrument.wf(),
        amount.wf(),
        price.wf(),
        instrument.linear_contract_value() is Some,
        instrument.linear_contract_value()->0.mantissa != 0,
        instrument.exchange_size_result(amount@, price@, Some(size@)),
        exists|q: (int, int)| exact_quotient(q, amount@, instrument.linear_contract_value()->0@),
        representable(
            size.mantissa * instrument.linear_contract_value()->0.mantissa,
            size.scale + instrument.linear_contract_value()->0.scale,
        ),
    ensures
        instrument.internal_amount(size@, price@) is Some,
        same_value(instrument.internal_amount(size@, price@)->0, amount@),
{
    let c = instrument.linear_contract_value()->0@;
    let a = amount@;
    let s = size@;
    let q = choose|q: (int, int)| exact_quotient(q, a, c);
    assert(exact_quotient(q, a, c));
    assert(same_value(s, q));
    lemma_pow10_positive(q.1 as nat);
    lemma_pow10_positive(a.1 as nat);
    lemma_pow10_add(q.1 as nat, c.1 as nat);
    lemma_pow10_add(s.1 as nat, c.1 as nat);
    let pq = pow10(q.1 as nat);
    let pc = pow10(c.1 as nat);
    let ps = pow10(s.1 as nat);
    let pa = pow10(a.1 as nat);
    // s * pq == q * ps, and q * c * pa == a * pq * pc
    assert(s.0 * pq == q.0 * ps);
    assert((q.0 * c.0) * pa == a.0 * (pq * pc));
    assert((s.0 * c.0) * pa == a.0 * (ps * pc)) by (nonlinear_arith)
        requires
            s.0 * pq == q.0 * ps,
            (q.0 * c.0) * pa == a.0 * (pq * pc),
            pq > 0,
    {
        assert((s.0 * c.0) * pa * pq == (q.0 * c.0) * pa * ps);
        assert((s.0 * c.0) * pa * pq == a.0 * (ps * pc) * pq);
    }
    if s.0 == 0 {
        lemma_pow10_positive((s.1 + c.1) as nat);
        assert(a.0 * (ps * pc) == 0) by (nonlinear_arith)
            requires
                (s.0 * c.0) * pa == a.0 * (ps * pc),
                s.0 == 0,
        ;
        assert(a.0 == 0) by (nonlinear_arith)
            requires
                a.0 * (ps * pc) == 0,
                ps * pc > 0,
        ;
        assert(pow10(0) == 1);
        assert(0 * pow10(a.1 as nat) == 0) by (nonlinear_arith);
        assert(same_value((0int, 0int), a));
    }
}

impl Pair {
    /// Whether the venue instrument is this pair. A spot instrument matches a spot pair with the
    /// same base and quote. A linear perpetual matches when the base is its contract value
    /// asset and the quote its settlement asset; an inverse one with the two roles swapped.
    pub open spec fn matches_spec(&self, instrument: &OkexInstrument) -> bool {
        match instrument {
            OkexInstrument::Spot { base, quote, .. } => self.kind == InstrumentKind::Spot
                && base@ == self.base@ && quote@ == self.quote@,
            OkexInstrument::FuturePerpetual {
                contract_type,
                contract_value_asset,
                settle_asset,
                ..
            } => self.kind == InstrumentKind::FuturePerpetual && match contract_type {
                OkexContractType::Linear => contract_value_asset@ == self.base@
                    && settle_asset@ == self.quote@,
                OkexContractType::Inverse => settle_asset@ == self.base@
                    && contract_value_asset@ == self.quote@,
            },
        }
    }

    /// Whether the venue instrument is this pair (see `matches_spec`).
    pub fn matches(&self, instrument: &OkexInstrument) -> (r: bool)
        ensures
            r == self.matches_spec(instrument),
    {
        match instrument {
            OkexInstrument::Spot { base, quote, .. } => {
                self.kind == InstrumentKind::Spot && *base == self.base && *quote == self.quote
            },
            OkexInstrument::FuturePerpetual {
                contract_type,
                contract_value_asset,
                settle_asset,
                ..
            } => {
                if self.kind != InstrumentKind::FuturePerpetual {
                    false
                } else {
                    match contract_type {
                        OkexContractType::Linear => *contract_value_asset == self.base
                            && *settle_asset == self.quote,
                        OkexContractType::Inverse => *settle_asset == self.base
                            && *contract_value_asset == self.quote,
                    }
                }
            },
        }
    }
}

} // verus!
