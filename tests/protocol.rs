use okx_driver::converter::InstrumentConverter;
use okx_driver::correlator::{RequestCorrelator, RequestId};
use okx_driver::decimal::Dec;
use okx_driver::instrument::{
    InstrumentKind, OkexContractType, OkexInstrument, OkexInstrumentId, OkexInstrumentType, Pair,
};
use okx_driver::order::{OkexPendingOrder, OrderId, Side};
use okx_driver::paging::{add_orders_page, add_trades_page, PageCursor, FETCH_OPEN_ORDERS_COUNT, FETCH_RECENT_TRADES_COUNT};
use okx_driver::report::{all_trades, pair_trades, raw_orders};
use okx_driver::request::{auth_headers, request_url, sign_payload, signature};
use okx_driver::trade::{Liquidity, TransactionResult, ONE_DAY_IN_MILLIS};

fn order(inst: &str, oid: &str) -> OkexPendingOrder {
    OkexPendingOrder {
        instrument_id: OkexInstrumentId(inst.into()),
        order_id: OrderId(oid.into()),
        client_order_id: format!("c{oid}"),
        price: Dec::from_int(10),
        amount: Dec::from_int(2),
        side: Side::Sell,
        created_at: 5,
    }
}

fn trade(inst: &str, bill: &str, created_at: i64, fee: i64) -> TransactionResult {
    TransactionResult {
        instrument_id: OkexInstrumentId(inst.into()),
        trade_id: format!("t{bill}"),
        order_id: OrderId(format!("o{bill}")),
        bill_id: bill.into(),
        price: Dec::from_int(100),
        filled_amount: Dec::from_int(1),
        side: Side::Buy,
        liquidity: Liquidity::Maker,
        fee_currency: "USDT".into(),
        fee: Dec::from_int(fee),
        created_at,
    }
}

#[test]
fn short_page_ends_pagination() {
    let mut pager = PageCursor::new(FETCH_OPEN_ORDERS_COUNT);
    let mut orders = Vec::new();
    let page: Vec<_> = (0..100).map(|i| order("BTC-USDT", &i.to_string())).collect();
    add_orders_page(&mut orders, page, &mut pager);
    assert!(!pager.finished);
    assert_eq!(pager.cursor.as_deref(), Some("99"));
    let page: Vec<_> = (100..130).map(|i| order("BTC-USDT", &i.to_string())).collect();
    add_orders_page(&mut orders, page, &mut pager);
    assert!(pager.finished);
    assert_eq!(pager.cursor.as_deref(), Some("99"));
    assert_eq!(orders.len(), 130);
}

#[test]
fn empty_first_page_ends_pagination() {
    let mut pager = PageCursor::new(FETCH_RECENT_TRADES_COUNT);
    let mut trades = Vec::new();
    add_trades_page(&mut trades, vec![], &mut pager);
    assert!(pager.finished);
    assert!(pager.cursor.is_none());
}

#[test]
fn full_trade_page_moves_after_cursor() {
    let mut pager = PageCursor::new(2);
    let mut trades = Vec::new();
    add_trades_page(&mut trades, vec![trade("A", "b1", 0, 0), trade("A", "b2", 0, 0)], &mut pager);
    assert!(!pager.finished);
    assert_eq!(pager.cursor.as_deref(), Some("b2"));
    add_trades_page(&mut trades, vec![trade("A", "b3", 0, 0)], &mut pager);
    assert!(pager.finished);
    assert_eq!(trades.len(), 3);
}

fn converter() -> InstrumentConverter {
    let pairs = vec![
        Pair { kind: InstrumentKind::FuturePerpetual, base: "ETH".into(), quote: "USDT".into() },
        Pair { kind: InstrumentKind::FuturePerpetual, base: "BTC".into(), quote: "USD".into() },
    ];
    let instruments = vec![
        OkexInstrument::Spot { base: "ETH".into(), quote: "USDT".into(), instrument_id: OkexInstrumentId("ETH-USDT".into()) },
        OkexInstrument::FuturePerpetual {
            settle_asset: "USDT".into(),
            contract_value_asset: "ETH".into(),
            instrument_id: OkexInstrumentId("ETH-USDT-SWAP".into()),
            contract_type: OkexContractType::Linear,
            contract_value: Dec::from_int(1),
        },
        OkexInstrument::FuturePerpetual {
            settle_asset: "BTC".into(),
            contract_value_asset: "USD".into(),
            instrument_id: OkexInstrumentId("BTC-USD-SWAP".into()),
            contract_type: OkexContractType::Inverse,
            contract_value: Dec::from_int(100),
        },
        OkexInstrument::Spot { base: "SOL".into(), quote: "USDT".into(), instrument_id: OkexInstrumentId("SOL-USDT".into()) },
    ];
    InstrumentConverter::new(OkexInstrumentType::Swap, pairs, instruments)
}

#[test]
fn converter_lookups_both_ways() {
    let c = converter();
    let eth = Pair { kind: InstrumentKind::FuturePerpetual, base: "ETH".into(), quote: "USDT".into() };
    assert_eq!(c.find_instrument(&eth).unwrap().id().as_str(), "ETH-USDT-SWAP");
    let btc = Pair { kind: InstrumentKind::FuturePerpetual, base: "BTC".into(), quote: "USD".into() };
    assert_eq!(c.find_instrument(&btc).unwrap().id().as_str(), "BTC-USD-SWAP");
    let sol = Pair { kind: InstrumentKind::Spot, base: "SOL".into(), quote: "USDT".into() };
    assert!(c.find_instrument(&sol).is_none());
    assert_eq!(c.find_pair(&OkexInstrumentId("BTC-USD-SWAP".into())).unwrap().base, "BTC");
    assert!(c.find_pair(&OkexInstrumentId("SOL-USDT".into())).is_none());
    assert!(c.find_pair(&OkexInstrumentId("ETH-USDT".into())).is_none());
}

#[test]
fn open_orders_take_their_pair() {
    let c = converter();
    let r = raw_orders(&c, vec![order("ETH-USDT-SWAP", "1"), order("SOL-USDT", "2"), order("BTC-USD-SWAP", "3")]);
    assert_eq!(r.len(), 2);
    assert_eq!(r[0].pair.base, "ETH");
    assert_eq!(r[0].internal_order_id, "c1");
    assert_eq!(r[1].order_id, OrderId("3".into()));
    assert_eq!(r[1].pair.quote, "USD");
}

#[test]
fn trades_of_the_last_day_only() {
    let now: i64 = 1_700_000_000_000;
    let pair = Pair { kind: InstrumentKind::FuturePerpetual, base: "ETH".into(), quote: "USDT".into() };
    let trades = vec![
        trade("ETH-USDT-SWAP", "1", now - ONE_DAY_IN_MILLIS - 1, -3),
        trade("ETH-USDT-SWAP", "2", now - ONE_DAY_IN_MILLIS, -3),
        trade("ETH-USDT-SWAP", "3", now, 2),
        trade("ETH-USDT-SWAP", "4", now + 1, 2),
    ];
    let r = pair_trades(trades.clone(), &pair, now);
    assert_eq!(r.len(), 2);
    assert_eq!(r[0].trade_id, "t2");
    assert_eq!(r[0].fee_amount, Some(Dec::from_int(3)));
    assert_eq!(r[1].fee_amount, Some(Dec::from_int(-2)));
    assert_eq!(r[1].internal_created_at, now);
    let all = all_trades(&converter(), trades, now);
    assert_eq!(all.len(), 2);
    assert_eq!(all[0].fee_amount, Some(Dec::from_int(-3)));
    assert_eq!(all[0].pair.base, "ETH");
}

#[test]
fn correlator_resolves_once() {
    let mut c: RequestCorrelator<u32> = RequestCorrelator::new();
    c.register(RequestId::from("1512".to_string()), 1);
    c.register(RequestId::from("77".to_string()), 2);
    assert_eq!(c.pending_count(), 2);
    assert_eq!(c.resolve(&RequestId::from("1512".to_string())), Some(1));
    assert_eq!(c.resolve(&RequestId::from("1512".to_string())), None);
    assert_eq!(c.resolve(&RequestId::from("9".to_string())), None);
    c.register(RequestId::from("5".to_string()), 3);
    let failed = c.fail_all();
    assert_eq!(failed.iter().map(|(id, w)| (id.as_str().to_string(), *w)).collect::<Vec<_>>(), vec![("77".to_string(), 2), ("5".to_string(), 3)]);
    assert_eq!(c.pending_count(), 0);
}

#[test]
fn signed_text_and_signature() {
    let ts = "2020-12-08T09:08:57.715Z";
    let payload = sign_payload(ts, "GET", "/api/v5/account/balance?ccy=BTC", "");
    assert_eq!(payload, "2020-12-08T09:08:57.715ZGET/api/v5/account/balance?ccy=BTC");
    let s = signature(b"secret", ts, "GET", "/api/v5/account/balance?ccy=BTC", "");
    assert_eq!(s, "wpDvCwYCprcMQsQkxWJiWy+YADoQE4ep+OEKKLimMoY=");
}

#[test]
fn request_urls() {
    let base = "https://www.okx.com";
    let path = "/api/v5/trade/fills";
    assert_eq!(request_url(base, path, false, None), "https://www.okx.com/api/v5/trade/fills");
    assert_eq!(request_url(base, path, true, None), "https://www.okx.com/api/v5/trade/fills?brokerId=9999");
    assert_eq!(request_url(base, path, false, Some("instType=SWAP")), "https://www.okx.com/api/v5/trade/fills?instType=SWAP");
    assert_eq!(
        request_url(base, path, true, Some("instType=SWAP")),
        "https://www.okx.com/api/v5/trade/fills?brokerId=9999&instType=SWAP"
    );
}

#[test]
fn unsupported_pair_is_reported_by_symbol() {
    let c = converter();
    let sol = Pair { kind: InstrumentKind::Spot, base: "SOL".into(), quote: "USDT".into() };
    assert_eq!(
        c.instrument_id_of(&sol),
        Err(okx_driver::error::DriverError::NotSupportedSymbol("SOL/USDT".into()))
    );
    let eth = Pair { kind: InstrumentKind::FuturePerpetual, base: "ETH".into(), quote: "USDT".into() };
    assert_eq!(c.instrument_id_of(&eth), Ok(OkexInstrumentId("ETH-USDT-SWAP".into())));
    assert!(c.has_collateral_balances());
}

#[test]
fn authentication_headers() {
    let h = auth_headers("key", "pass", "c2ln", "2020-12-08T09:08:57.715Z", false);
    let names: Vec<&str> = h.iter().map(|(n, _)| n.as_str()).collect();
    assert_eq!(names, vec!["ok-access-key", "ok-access-passphrase", "ok-access-sign", "ok-access-timestamp"]);
    assert_eq!(h[0].1, "key");
    assert_eq!(h[1].1, "pass");
    assert_eq!(h[2].1, "c2ln");
    assert_eq!(h[3].1, "2020-12-08T09:08:57.715Z");
    let h = auth_headers("key", "pass", "c2ln", "t", true);
    assert_eq!(h.len(), 5);
    assert_eq!(h[4], ("x-simulated-trading".to_string(), "1".to_string()));
}

#[test]
fn signature_length_is_padded_base64_of_the_tag() {
    let s = signature(b"k", "t", "POST", "/p", "{}");
    assert_eq!(s.len(), 44);
    assert!(s.ends_with('='));
}
