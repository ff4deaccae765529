//! The table between the driver's configured pairs and the venue's instruments.
use vstd::prelude::*;
use crate::error::DriverError;
use crate::instrument::{OkexInstrument, OkexInstrumentId, OkexInstrumentType, Pair};

verus! {

/// The same kind, base and quote.
pub open spec fn same_pair(a: Pair, b: Pair) -> bool {
    a.kind == b.kind && a.base@ == b.base@ && a.quote@ == b.quote@
}

/// `k` is the first instrument that the pair matches.
pub open spec fn is_first_match(pair: Pair, instruments: Seq<OkexInstrument>, k: int) -> bool {
    0 <= k < instruments.len() && pair.matches_spec(&instruments[k]) && forall|j: int|
        0 <= j < k ==> !pair.matches_spec(&#[trigger] instruments[j])
}

/// Index of the first instrument that the pair matches, if any does.
pub open spec fn first_match(pair: Pair, instruments: Seq<OkexInstrument>) -> Option<int> {
    if exists|k: int| is_first_match(pair, instruments, k) {
        Some(choose|k: int| is_first_match(pair, instruments, k))
    } else {
        None
    }
}

proof fn lemma_first_match_unique(pair: Pair, instruments: Seq<OkexInstrument>, k: int)
    requires
        is_first_match(pair, instruments, k),
    ensures
        first_match(pair, instruments) == Some(k),
{
    let c = choose|k: int| is_first_match(pair, instruments, k);
    assert(is_first_match(pair, instruments, c));
    if c < k {
        assert(!pair.matches_spec(&instruments[c]));
    } else if k < c {
        assert(!pair.matches_spec(&instruments[k]));
    }
}

/// Maps configured pairs to the venue's instruments and back; read-only once built.
#[derive(Debug)]
pub struct InstrumentConverter {
    /// The instrument category the driver trades.
    pub instrument_type: OkexInstrumentType,
    /// The pairs the driver is configured for.
    pub pairs: Vec<Pair>,
    /// The venue's instrument list.
    pub instruments: Vec<OkexInstrument>,
}

impl InstrumentConverter {
    /// Collateral balances are fetched only when the driver trades perpetual swaps.
    pub fn has_collateral_balances(&self) -> (r: bool)
        ensures
            r == (self.instrument_type == OkexInstrumentType::Swap),
    {
        self.instrument_type == OkexInstrumentType::Swap
    }

    /// The pair is one of the configured pairs.
    pub open spec fn configured(&self, pair: Pair) -> bool {
        exists|i: int| 0 <= i < self.pairs@.len() && same_pair(#[trigger] self.pairs@[i], pair)
    }

    /// The instrument of a configured pair: the first one of the venue's list that it matches.
    pub open spec fn instrument_of(&self, pair: Pair) -> Option<int> {
        if self.configured(pair) {
            first_match(pair, self.instruments@)
        } else {
            None
        }
    }

    /// A converter for the configured pairs over the venue's instrument list.
    pub fn new(
        instrument_type: OkexInstrumentType,
        pairs: Vec<Pair>,
        instruments: Vec<OkexInstrument>,
    ) -> (r: InstrumentConverter)
        ensures
            r.instrument_type == instrument_type,
            r.pairs == pairs,
            r.instruments == instruments,
    {
        InstrumentConverter { instrument_type, pairs, instruments }
    }

    fn first_match_index(&self, pair: &Pair) -> (r: Option<usize>)
        ensures
            r matches Some(k) ==> first_match(*pair, self.instruments@) == Some(k as int),
            r is None ==> first_match(*pair, self.instruments@) is None,
    {
        let mut k: usize = 0;
        while k < self.instruments.len()
            invariant
                k <= self.instruments@.len(),
                forall|j: int| 0 <= j < k ==> !pair.matches_spec(&#[trigger] self.instruments@[j]),
            decreases self.instruments@.len() - k,
        {
            if pair.matches(&self.instruments[k]) {
                proof {
                    lemma_first_match_unique(*pair, self.instruments@, k as int);
                }
                return Some(k);
            }
            k = k + 1;
        }
        proof {
            assert forall|c: int| !is_first_match(*pair, self.instruments@, c) by {
                if 0 <= c < self.instruments@.len() {
                    assert(!pair.matches_spec(&self.instruments@[c]));
                }
            }
        }
        None
    }

    fn is_configured(&self, pair: &Pair) -> (r: bool)
        ensures
            r == self.configured(*pair),
    {
        let mut i: usize = 0;
        while i < self.pairs.len()
            invariant
                i <= self.pairs@.len(),
                forall|j: int| 0 <= j < i ==> !same_pair(#[trigger] self.pairs@[j], *pair),
            decreases self.pairs@.len() - i,
        {
            let p = &self.pairs[i];
            if p.kind == pair.kind && p.base == pair.base && p.quote == pair.quote {
                assert(same_pair(self.pairs@[i as int], *pair));
                return true;
            }
            i = i + 1;
        }
        false
    }

    /// The venue instrument of a configured pair; `None` when the pair is not configured or
    /// the venue lists no instrument for it, which callers report as an unsupported symbol.
    pub fn find_instrument(&self, pair: &Pair) -> (r: Option<&OkexInstrument>)
        ensures
            r is None <==> self.instrument_of(*pair) is None,
            r matches Some(x) ==> *x == self.instruments@[self.instrument_of(*pair)->0],
    {
        if !self.is_configured(pair) {
            return None;
        }
        match self.first_match_index(pair) {
            Some(k) => Some(&self.instruments[k]),
            None => None,
        }
    }

    /// The venue identifier of a configured pair's instrument; a pair without one is an
    /// unsupported symbol, named `base/quote`.
    pub fn instrument_id_of(&self, pair: &Pair) -> (r: Result<OkexInstrumentId, DriverError>)
        ensures
            self.instrument_of(*pair) matches Some(k) ==> r == Ok::<OkexInstrumentId, DriverError>(
                self.instruments@[k].id_spec(),
            ),
            self.instrument_of(*pair) is None ==> (r matches Err(DriverError::NotSupportedSymbol(s))
                && s@ == pair.base@ + "/"@ + pair.quote@),
    {
        match self.find_instrument(pair) {
            Some(i) => Ok(i.id()),
            None => {
                let mut symbol = pair.base.clone();
                symbol.append("/");
                symbol.append(pair.quote.as_str());
                proof {
                    reveal_strlit("/");
                }
                Err(DriverError::NotSupportedSymbol(symbol))
            },
        }
    }

    /// The first configured pair whose instrument has the identifier.
    pub open spec fn pair_index_of(&self, id: OkexInstrumentId) -> Option<int> {
        if exists|i: int| self.is_pair_of(id, i) {
            Some(choose|i: int| self.is_pair_of(id, i))
        } else {
            None
        }
    }

    /// Pair `i` is the first configured pair whose instrument has the identifier.
    pub open spec fn is_pair_of(&self, id: OkexInstrumentId, i: int) -> bool {
        0 <= i < self.pairs@.len() && self.has_instrument_id(self.pairs@[i], id) && forall|j: int|
            0 <= j < i ==> !self.has_instrument_id(#[trigger] self.pairs@[j], id)
    }

    /// The instrument of the pair has the identifier.
    pub open spec fn has_instrument_id(&self, pair: Pair, id: OkexInstrumentId) -> bool {
        match first_match(pair, self.instruments@) {
            Some(k) => self.instruments@[k].id_spec().0@ == id.0@,
            None => false,
        }
    }

    /// The configured pair that trades as the instrument with this identifier.
    pub fn find_pair(&self, id: &OkexInstrumentId) -> (r: Option<&Pair>)
        ensures
            r is None <==> self.pair_index_of(*id) is None,
            r matches Some(p) ==> *p == self.pairs@[self.pair_index_of(*id)->0],
    {
        let mut i: usize = 0;
        while i < self.pairs.len()
            invariant
                i <= self.pairs@.len(),
                forall|j: int| 0 <= j < i ==> !self.has_instrument_id(#[trigger] self.pairs@[j], *id),
            decreases self.pairs@.len() - i,
        {
            let found = match self.first_match_index(&self.pairs[i]) {
                Some(k) => self.instruments[k].id() == *id,
                None => false,
            };
            if found {
                proof {
                    let c = choose|c: int| self.is_pair_of(*id, c);
                    assert(self.is_pair_of(*id, i as int));
                    assert(self.is_pair_of(*id, c));
                    if c < i {
                        assert(!self.has_instrument_id(self.pairs@[c], *id));
                    } else if i < c {
                        assert(!self.has_instrument_id(self.pairs@[i as int], *id));
                    }
                }
                return Some(&self.pairs[i]);
            }
            i = i + 1;
        }
        proof {
            assert forall|c: int| !self.is_pair_of(*id, c) by {
                if 0 <= c < self.pairs@.len() {
                    assert(!self.has_instrument_id(self.pairs@[c], *id));
                }
            }
        }
        None
    }
}

} // verus!
