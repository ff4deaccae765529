//! Account settings, connection status, and funding-fee bills.
use vstd::prelude::*;
use crate::decimal::Dec;
use crate::error::DriverError;
use crate::order::Side;
use crate::trade::Liquidity;

verus! {

/// Bill type of a funding fee in the venue's account bills.
pub const FUNDING_FEE_BILL_TYPE: u64 = 8;

/// State of the streaming connection.
#[derive(Debug, Clone, Copy, PartialEq, Eq, Structural)]
pub enum ConnectionStatus {
    Online,
    Offline,
    Connecting,
}

impl ConnectionStatus {
    /// Streaming calls go out only while the connection is online.
    pub fn check_online(&self) -> (r: Result<(), DriverError>)
        ensures
            *self == ConnectionStatus::Online ==> r is Ok,
            *self != ConnectionStatus::Online ==> r matches Err(DriverError::Generic(_)),
    {
        match self {
            ConnectionStatus::Online => Ok(()),
            _ => Err(DriverError::Generic("WS Client isn't Online".to_string())),
        }
    }
}

/// Optional capabilities of a driver.
#[derive(Debug, Clone, Copy, PartialEq, Eq, Structural)]
pub enum DriverFeature {
    BatchOpen,
    BatchCancel,
    ImmediateOrCancelOrders,
    PostOnlyOrders,
}

/// This driver places immediate-or-cancel and post-only orders, and no batches.
pub fn supports_feature(feature: DriverFeature) -> (r: bool)
    ensures
        r == (feature == DriverFeature::ImmediateOrCancelOrders || feature
            == DriverFeature::PostOnlyOrders),
{
    match feature {
        DriverFeature::BatchOpen => false,
        DriverFeature::BatchCancel => false,
        DriverFeature::ImmediateOrCancelOrders => true,
        DriverFeature::PostOnlyOrders => true,
    }
}

/// How the account holds derivative positions.
#[derive(Debug, Clone, Copy, PartialEq, Eq, Structural)]
pub enum OkexPositionMode {
    /// In long/short mode, users can hold positions in long and short directions.
    LongShortMode,
    /// In net mode, users can only have positions in one direction
    NetMode,
}

impl Default for OkexPositionMode {
    fn default() -> (r: OkexPositionMode)
        ensures
            r == OkexPositionMode::NetMode,
    {
        OkexPositionMode::NetMode
    }
}

/// The position mode a reply reports: its last entry; no payload, or an empty one, is a
/// parse failure.
pub fn position_mode_reply(data: Option<Vec<OkexPositionMode>>) -> (r: Result<OkexPositionMode, DriverError>)
    ensures
        data matches Some(modes) ==> (if modes@.len() > 0 {
            r == Ok::<OkexPositionMode, DriverError>(modes@.last())
        } else {
            r matches Err(DriverError::ParseFailure(_))
        }),
        data is None ==> r matches Err(DriverError::ParseFailure(_)),
{
    match data {
        Some(modes) => {
            if modes.len() > 0 {
                Ok(modes[modes.len() - 1])
            } else {
                Err(DriverError::ParseFailure("No position mode in response".to_string()))
            }
        },
        None => Err(DriverError::ParseFailure("No position mode in response".to_string())),
    }
}

/// The venue confirms a position-mode change by echoing the mode; any other answer is a
/// failure.
pub fn confirm_position_mode(requested: OkexPositionMode, answered: OkexPositionMode) -> (r: Result<(), DriverError>)
    ensures
        requested == answered ==> r is Ok,
        requested != answered ==> r matches Err(DriverError::Generic(_)),
{
    if requested == answered {
        Ok(())
    } else {
        Err(DriverError::Generic("Failed to set position mode".to_string()))
    }
}

/// Side of a position.
#[derive(Debug, Clone, Copy, PartialEq, Eq, Structural)]
pub enum OkexPositionSide {
    Long,
    Short,
    Net,
}

/// Margin mode of a trade.
#[derive(Debug, Clone, Copy, PartialEq, Eq, Structural)]
pub enum OkexTradeMode {
    Cash,
    Isolated,
    Cross,
}

impl OkexPositionSide {
    /// The position side an order opens: long for a buy and short for a sell in long/short
    /// mode, net in net mode.
    pub fn from(mode: OkexPositionMode, side: Side) -> (r: OkexPositionSide)
        ensures
            mode == OkexPositionMode::NetMode ==> r == OkexPositionSide::Net,
            mode == OkexPositionMode::LongShortMode && side == Side::Buy ==> r == OkexPositionSide::Long,
            mode == OkexPositionMode::LongShortMode && side == Side::Sell ==> r == OkexPositionSide::Short,
    {
        match (mode, side) {
            (OkexPositionMode::LongShortMode, Side::Buy) => OkexPositionSide::Long,
            (OkexPositionMode::LongShortMode, Side::Sell) => OkexPositionSide::Short,
            _ => OkexPositionSide::Net,
        }
    }
}

/// Kinds of account bills.
#[derive(Debug, Clone)]
pub enum OkexBillType {
    Transfer,
    Trade,
    MarginTransfer,
    FundingFee,
    Other(String),
}

/// Kinds of reported transactions.
#[derive(Debug, Clone, PartialEq, Eq)]
pub enum TransactionType {
    Trade,
    Transfer,
    FundingFee,
    MarginFee,
    Other(String),
}

/// The `Debug` text of a string: quoted, with its special characters escaped.
pub uninterp spec fn debug_quoted_of(s: Seq<char>) -> Seq<char>;

/// Relies on std's `Debug` for `String`, through `format!`: the text depends on the
/// characters alone.
#[verifier::external_body]
fn debug_quoted(s: &String) -> (r: String)
    ensures
        r@ == debug_quoted_of(s@),
{
    format!("{:?}", s)
}

/// The `Debug` text of a bill type of no named kind: `Other(` and its quoted text and `)`.
pub open spec fn other_bill_text(s: Seq<char>) -> Seq<char> {
    "Other("@ + debug_quoted_of(s) + ")"@
}

impl TransactionType {
    /// The transaction type of a bill type: margin transfers are margin fees, and a bill
    /// type of no other kind is kept as its debug text.
    pub fn from(value: OkexBillType) -> (r: TransactionType)
        ensures
            value is Trade ==> r == TransactionType::Trade,
            value is Transfer ==> r == TransactionType::Transfer,
            value is FundingFee ==> r == TransactionType::FundingFee,
            value is MarginTransfer ==> r == TransactionType::MarginFee,
            value matches OkexBillType::Other(v) ==> (r matches TransactionType::Other(s) && s@
                == other_bill_text(v@)),
    {
        match value {
            OkexBillType::Trade => TransactionType::Trade,
            OkexBillType::Transfer => TransactionType::Transfer,
            OkexBillType::FundingFee => TransactionType::FundingFee,
            OkexBillType::MarginTransfer => TransactionType::MarginFee,
            OkexBillType::Other(v) => {
                let mut text = String::from_str("Other(");
                let quoted = debug_quoted(&v);
                text.append(quoted.as_str());
                text.append(")");
                proof {
                    reveal_strlit("Other(");
                    reveal_strlit(")");
                }
                TransactionType::Other(text)
            },
        }
    }
}

/// One entry of the account's bills.
#[derive(Debug, Clone)]
pub struct OkexBillResponse {
    pub type_: u64,
    pub ts: u64,
    pub amount: Dec,
    pub price: Option<Dec>,
    pub currency: String,
    pub fee: Option<Dec>,
    pub instrument_id: String,
    pub order_id: Option<String>,
    pub liquidity: Liquidity,
    pub updated_at: u64,
    pub trade_id: Option<String>,
}

/// A transaction in the reporting stream's form.
#[derive(Debug, Clone)]
pub struct KinesisTransaction {
    pub bot_id: String,
    pub exchange: String,
    pub symbol: String,
    pub trade_id: String,
    pub order_id: String,
    pub side: Side,
    pub price: Dec,
    pub fee: Option<Dec>,
    pub fee_currency: Option<String>,
    pub amount: Dec,
    pub filled_amount: Dec,
    pub liquidity: Liquidity,
    pub date: u64,
    pub created_at: u64,
    pub base_currency: String,
    pub quote_currency: String,
    pub operation: String,
    pub level_id: String,
    pub transaction_type: TransactionType,
}

impl KinesisTransaction {
    /// This is the funding-fee transaction of the bill: a negative fee makes it a sell, any
    /// other a buy; an absent price is zero; the bill's currency stands for base, quote and
    /// fee currency alike; nothing is filled and the level id is empty.
    pub open spec fn is_kinesis_of(
        &self,
        b: OkexBillResponse,
        exchange: Seq<char>,
        bot_id: String,
        operation: String,
    ) -> bool {
        &&& self.bot_id == bot_id
        &&& self.exchange@ == exchange
        &&& self.symbol == b.instrument_id
        &&& self.trade_id == b.trade_id->0
        &&& self.order_id == b.order_id->0
        &&& self.side == (if b.fee matches Some(f) && f.mantissa < 0 {
            Side::Sell
        } else {
            Side::Buy
        })
        &&& self.price == (match b.price {
            Some(p) => p,
            None => Dec::zero_spec(),
        })
        &&& self.fee == b.fee
        &&& self.fee_currency == Some(b.currency)
        &&& self.amount == b.amount
        &&& self.filled_amount == Dec::zero_spec()
        &&& self.liquidity == b.liquidity
        &&& self.date == b.updated_at
        &&& self.created_at == b.ts
        &&& self.base_currency == b.currency
        &&& self.quote_currency == b.currency
        &&& self.operation == operation
        &&& self.level_id@.len() == 0
        &&& self.transaction_type == TransactionType::FundingFee
    }
}

impl OkexBillResponse {
    /// The bill carries the ids a reported transaction needs.
    pub open spec fn reportable(&self) -> bool {
        self.trade_id is Some && self.order_id is Some
    }

    /// The bill as a funding-fee transaction: a negative fee makes it a sell, any other a
    /// buy; an absent price is zero; the bill's currency stands for base, quote and fee
    /// currency alike.
    pub fn to_kinesis_transaction(&self, exchange: &str, bot_id: String, operation: String) -> (r: KinesisTransaction)
        requires
            self.reportable(),
        ensures
            r.is_kinesis_of(*self, exchange@, bot_id, operation),
    {
        let trade_id = match &self.trade_id {
            Some(t) => t.clone(),
            None => String::new(),
        };
        let order_id = match &self.order_id {
            Some(o) => o.clone(),
            None => String::new(),
        };
        let side = match self.fee {
            Some(f) => if f.mantissa < 0 { Side::Sell } else { Side::Buy },
            None => Side::Buy,
        };
        let price = match self.price {
            Some(p) => p,
            None => Dec::zero(),
        };
        KinesisTransaction {
            bot_id,
            exchange: String::from_str(exchange),
            symbol: self.instrument_id.clone(),
            trade_id,
            order_id,
            side,
            price,
            fee: self.fee,
            fee_currency: Some(self.currency.clone()),
            amount: self.amount,
            filled_amount: Dec::zero(),
            liquidity: self.liquidity,
            date: self.updated_at,
            created_at: self.ts,
            base_currency: self.currency.clone(),
            quote_currency: self.currency.clone(),
            operation,
            level_id: String::new(),
            transaction_type: TransactionType::FundingFee,
        }
    }
}

/// The funding-fee bills, in order.
pub open spec fn funding_bills(bills: Seq<OkexBillResponse>) -> Seq<OkexBillResponse>
    decreases bills.len(),
{
    if bills.len() == 0 {
        Seq::empty()
    } else {
        let init = funding_bills(bills.drop_last());
        if bills.last().type_ == FUNDING_FEE_BILL_TYPE {
            init.push(bills.last())
        } else {
            init
        }
    }
}

/// The funding-fee bills as reported transactions, one for each, in order.
pub fn funding_transactions(
    bills: &Vec<OkexBillResponse>,
    exchange: &str,
    bot_id: &String,
    operation: &String,
) -> (r: Vec<KinesisTransaction>)
    requires
        forall|i: int|
            0 <= i < bills@.len() && (#[trigger] bills@[i]).type_ == FUNDING_FEE_BILL_TYPE
                ==> bills@[i].reportable(),
    ensures
        r@.len() == funding_bills(bills@).len(),
        forall|i: int|
            0 <= i < r@.len() ==> (#[trigger] r@[i]).is_kinesis_of(
                funding_bills(bills@)[i],
                exchange@,
                *bot_id,
                *operation,
            ),
{
    let mut out: Vec<KinesisTransaction> = Vec::new();
    let mut i: usize = 0;
    while i < bills.len()
        invariant
            i <= bills@.len(),
            forall|i: int|
                0 <= i < bills@.len() && (#[trigger] bills@[i]).type_ == FUNDING_FEE_BILL_TYPE
                    ==> bills@[i].reportable(),
            out@.len() == funding_bills(bills@.subrange(0, i as int)).len(),
            forall|k: int|
                0 <= k < out@.len() ==> (#[trigger] out@[k]).is_kinesis_of(
                    funding_bills(bills@.subrange(0, i as int))[k],
                    exchange@,
                    *bot_id,
                    *operation,
                ),
        decreases bills@.len() - i,
    {
        proof {
            let s = bills@.subrange(0, i + 1);
            assert(s.drop_last() =~= bills@.subrange(0, i as int));
            assert(s.last() == bills@[i as int]);
        }
        if bills[i].type_ == FUNDING_FEE_BILL_TYPE {
            let t = bills[i].to_kinesis_transaction(exchange, bot_id.clone(), operation.clone());
            out.push(t);
        }
        i = i + 1;
    }
    proof {
        assert(bills@.subrange(0, bills@.len() as int) =~= bills@);
    }
    out
}

} // verus!
