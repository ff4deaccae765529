use okx_driver::cancel::{cancel_batches, cancelled_in_batches, rest_cancel_result, CANCEL_ORDERS_BATCH_COUNT};
use okx_driver::error::DriverError;
use okx_driver::instrument::{OkexContractType, OkexInstrument, OkexInstrumentId};
use okx_driver::decimal::Dec;
use okx_driver::lifecycle::{
    after_stream_batch_cancel, after_stream_cancel, has_id, order_ids_on, split_batch_cancel,
    stream_cancel_result, stream_reply, BatchCancelStep, CancelStep,
};
use okx_driver::order::{rest_page, OkexPendingOrder, OkexRestResponse, OrderId, OrderResult, Side};

fn id(s: &str) -> OrderId {
    OrderId(s.to_string())
}

fn ack(order: &str, code: u64) -> OrderResult {
    OrderResult { order_id: id(order), client_oid: String::new(), code, msg: format!("code {code}") }
}

fn ids(n: usize) -> Vec<OrderId> {
    (0..n).map(|i| id(&format!("o{i}"))).collect()
}

#[test]
fn empty_batch_has_no_chunks_and_no_result() {
    assert!(cancel_batches(&vec![]).is_empty());
    assert!(cancelled_in_batches(&vec![]).is_empty());
}

#[test]
fn batches_hold_at_most_twenty_in_order() {
    let all = ids(45);
    let chunks = cancel_batches(&all);
    assert_eq!(chunks.len(), 3);
    assert_eq!(chunks[0].len(), CANCEL_ORDERS_BATCH_COUNT);
    assert_eq!(chunks[1].len(), 20);
    assert_eq!(chunks[2].len(), 5);
    let flat: Vec<OrderId> = chunks.into_iter().flatten().collect();
    assert_eq!(flat, all);
    assert_eq!(cancel_batches(&ids(20)).len(), 1);
    assert_eq!(cancel_batches(&ids(21)).len(), 2);
    assert_eq!(cancel_batches(&ids(1))[0], vec![id("o0")]);
}

#[test]
fn failed_chunk_contributes_nothing_and_idempotent_ids_count() {
    let failed: Result<OkexRestResponse<Vec<OrderResult>>, DriverError> =
        Err(DriverError::Generic("connection reset".into()));
    let ok = Ok(OkexRestResponse {
        code: 0,
        msg: None,
        data: Some(vec![
            ack("a", 0),
            ack("b", 51400),
            ack("c", 51401),
            ack("d", 51402),
            ack("e", 51000),
        ]),
    });
    let empty = Ok(OkexRestResponse { code: 0, msg: Some("nothing".into()), data: None });
    let r = cancelled_in_batches(&vec![failed, ok, empty]);
    assert_eq!(r, vec![id("a"), id("b"), id("c"), id("d")]);
}

#[test]
fn acknowledgment_codes_map_to_errors() {
    assert_eq!(ack("x", 0).validate(), Ok(()));
    assert_eq!(ack("x", 51400).validate(), Err(DriverError::OrderNotFound));
    assert_eq!(ack("x", 51401).validate(), Err(DriverError::OrderAlreadyCancelled));
    assert_eq!(ack("x", 51402).validate(), Err(DriverError::OrderAlreadyFilled));
    assert_eq!(
        ack("x", 51008).validate(),
        Err(DriverError::Venue { code: 51008, msg: "code 51008".into() })
    );
    assert!(DriverError::OrderAlreadyFilled.is_idempotent());
    assert!(!DriverError::Generic("x".into()).is_idempotent());
}

#[test]
fn envelope_validation() {
    let ok: OkexRestResponse<u32> = OkexRestResponse { code: 0, msg: None, data: Some(7) };
    assert_eq!(ok.validate(), Ok(Some(7)));
    let none: OkexRestResponse<u32> = OkexRestResponse { code: 0, msg: None, data: None };
    assert_eq!(none.validate(), Ok(None));
    let bad: OkexRestResponse<u32> =
        OkexRestResponse { code: 50113, msg: Some("Invalid Sign".into()), data: None };
    assert_eq!(bad.validate(), Err(DriverError::Venue { code: 50113, msg: "Invalid Sign".into() }));
    let bad: OkexRestResponse<u32> = OkexRestResponse { code: 1, msg: None, data: None };
    assert_eq!(bad.validate(), Err(DriverError::Venue { code: 1, msg: String::new() }));
}

#[test]
fn single_rest_cancel_reads_last_acknowledgment() {
    let r = rest_cancel_result(OkexRestResponse { code: 0, msg: None, data: Some(vec![ack("a", 0)]) });
    assert_eq!(r, Ok(()));
    let r = rest_cancel_result(OkexRestResponse { code: 0, msg: None, data: Some(vec![ack("a", 51402)]) });
    assert_eq!(r, Err(DriverError::OrderAlreadyFilled));
    let r = rest_cancel_result(OkexRestResponse { code: 0, msg: None, data: Some(vec![]) });
    assert!(matches!(r, Err(DriverError::Generic(_))));
    let r = rest_cancel_result(OkexRestResponse { code: 1, msg: Some("x".into()), data: None });
    assert!(matches!(r, Err(DriverError::Generic(_))));
}

#[test]
fn stream_cancel_already_filled_is_final() {
    let step = after_stream_cancel(Err(DriverError::OrderAlreadyFilled));
    assert!(matches!(step, CancelStep::Done(Err(DriverError::OrderAlreadyFilled))));
}

#[test]
fn stream_cancel_other_outcomes() {
    assert!(matches!(after_stream_cancel(Ok(())), CancelStep::Done(Ok(()))));
    assert!(matches!(
        after_stream_cancel(Err(DriverError::OrderNotFound)),
        CancelStep::Done(Err(DriverError::OrderNotFound))
    ));
    assert!(matches!(
        after_stream_cancel(Err(DriverError::OrderAlreadyCancelled)),
        CancelStep::Done(Err(DriverError::OrderAlreadyCancelled))
    ));
    assert!(matches!(
        after_stream_cancel(Err(DriverError::Generic("timeout".into()))),
        CancelStep::FallbackRest
    ));
    assert!(matches!(
        after_stream_cancel(Err(DriverError::Venue { code: 50001, msg: "busy".into() })),
        CancelStep::FallbackRest
    ));
}

#[test]
fn stream_batch_cancel_decisions() {
    let all = vec![id("a"), id("b"), id("c")];
    match after_stream_batch_cancel(all.clone(), Ok((all.clone(), vec![]))) {
        BatchCancelStep::Done(c) => assert_eq!(c, all),
        _ => panic!("expected done"),
    }
    match after_stream_batch_cancel(all.clone(), Ok((vec![id("a")], vec![id("b"), id("c")]))) {
        BatchCancelStep::RestCancel(rest) => assert_eq!(rest, vec![id("b"), id("c")]),
        _ => panic!("expected partial fallback"),
    }
    match after_stream_batch_cancel(all.clone(), Err(DriverError::Generic("closed".into()))) {
        BatchCancelStep::RestCancel(rest) => assert_eq!(rest, all),
        _ => panic!("expected full fallback"),
    }
}

#[test]
fn split_of_stream_batch_results() {
    let requested = vec![id("a"), id("b"), id("c"), id("d")];
    let results = vec![ack("a", 0), ack("b", 51000), ack("d", 51401)];
    let (cancelled, rest) = split_batch_cancel(&requested, &results);
    assert_eq!(cancelled, vec![id("a"), id("d")]);
    assert_eq!(rest, vec![id("b"), id("c")]);
    assert!(has_id(&cancelled, &id("d")));
    assert!(!has_id(&cancelled, &id("b")));
}

#[test]
fn open_order_ids_of_one_instrument() {
    let order = |inst: &str, oid: &str| OkexPendingOrder {
        instrument_id: OkexInstrumentId(inst.into()),
        order_id: id(oid),
        client_order_id: String::new(),
        price: Dec::from_int(1),
        amount: Dec::from_int(1),
        side: Side::Buy,
        created_at: 0,
    };
    let orders = vec![order("BTC-USDT", "1"), order("ETH-USDT", "2"), order("BTC-USDT", "3")];
    let r = order_ids_on(&orders, &OkexInstrumentId("BTC-USDT".into()));
    assert_eq!(r, vec![id("1"), id("3")]);
    assert!(order_ids_on(&orders, &OkexInstrumentId("SOL-USDT".into())).is_empty());
}

#[test]
fn stream_replies_and_single_cancel_outcome() {
    let r = stream_reply(60012, "bad request".into(), vec![]);
    assert_eq!(r.err(), Some(DriverError::Venue { code: 60012, msg: "bad request".into() }));
    let r = stream_reply(1, "partial".into(), vec![ack("a", 51402)]);
    assert_eq!(r.clone().unwrap().len(), 1);
    assert_eq!(stream_cancel_result(r), Err(DriverError::OrderAlreadyFilled));
    assert_eq!(stream_cancel_result(stream_reply(0, String::new(), vec![ack("a", 0)])), Ok(()));
    assert!(matches!(stream_cancel_result(Ok(vec![])), Err(DriverError::Generic(_))));
    assert_eq!(
        stream_cancel_result(Err(DriverError::Generic("closed".into()))),
        Err(DriverError::Generic("closed".into()))
    );
}

#[test]
fn page_envelope_without_data_is_an_error() {
    let ok: OkexRestResponse<Vec<u32>> = OkexRestResponse { code: 0, msg: None, data: Some(vec![1, 2]) };
    assert_eq!(rest_page(ok), Ok(vec![1, 2]));
    let empty: OkexRestResponse<Vec<u32>> = OkexRestResponse { code: 0, msg: None, data: Some(vec![]) };
    assert_eq!(rest_page(empty), Ok(vec![]));
    let none: OkexRestResponse<Vec<u32>> = OkexRestResponse { code: 0, msg: None, data: None };
    assert!(matches!(rest_page(none), Err(DriverError::ParseFailure(_))));
    let bad: OkexRestResponse<Vec<u32>> = OkexRestResponse { code: 50113, msg: Some("Invalid Sign".into()), data: None };
    assert_eq!(rest_page(bad), Err(DriverError::Venue { code: 50113, msg: "Invalid Sign".into() }));
}

#[test]
fn linear_zero_contract_value_sizes_to_zero_amount() {
    let inst = OkexInstrument::FuturePerpetual {
        settle_asset: "usdt".into(),
        contract_value_asset: "eth".into(),
        instrument_id: OkexInstrumentId("ETH-USDT-SWAP".into()),
        contract_type: OkexContractType::Linear,
        contract_value: Dec::from_parts(0, 20).unwrap(),
    };
    let size = Dec::from_parts(5, 20).unwrap();
    assert!(inst.to_internal_amount(size, Dec::from_int(1)).unwrap().is_zero());
}
