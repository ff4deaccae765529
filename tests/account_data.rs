use okx_driver::account::{
    confirm_position_mode, funding_transactions, position_mode_reply, supports_feature, ConnectionStatus, DriverFeature, OkexBillResponse,
    OkexBillType, OkexPositionMode, OkexPositionSide, TransactionType,
};
use okx_driver::balance::{account_balances, OkexBalance, OkexBalanceUpdate, OkexBalancesUpdate};
use okx_driver::decimal::Dec;
use okx_driver::error::DriverError;
use okx_driver::order::Side;
use okx_driver::trade::{deserialize_to_liquidity, Liquidity};
use rust_decimal::Decimal;
use std::str::FromStr;

fn d(s: &str) -> Dec {
    let x = Decimal::from_str(s).unwrap();
    Dec::from_parts(x.mantissa(), x.scale()).unwrap()
}

fn back(v: Dec) -> Decimal {
    Decimal::from_i128_with_scale(v.mantissa(), v.scale())
}

fn n(s: &str) -> Decimal {
    Decimal::from_str(s).unwrap()
}

#[test]
fn balance_used_is_total_less_free() {
    let b = OkexBalance { asset: "USDT".into(), cash_bal: Some(d("91.99")), avail_bal: Some(d("90.5")) };
    let r = b.to_raw_balance(7).unwrap();
    assert_eq!(r.symbol, "USDT");
    assert_eq!(back(r.total), n("91.99"));
    assert_eq!(back(r.free), n("90.5"));
    assert_eq!(back(r.used), n("1.49"));
    assert_eq!(r.last_updated, 7);
}

#[test]
fn absent_balance_figures_are_zero() {
    let b = OkexBalance { asset: "LTC".into(), cash_bal: None, avail_bal: Some(d("2")) };
    let r = b.clone().to_raw_balance(0).unwrap();
    assert_eq!(back(r.total), n("0"));
    assert_eq!(back(r.used), n("-2"));
    let c = b.to_raw_collateral().unwrap();
    assert!(c.total.is_zero());
    assert_eq!(back(c.free), n("2"));
    assert_eq!(back(c.used), n("-2"));
    let c = OkexBalance { asset: "ETH".into(), cash_bal: Some(d("3.5")), avail_bal: None }
        .to_raw_collateral()
        .unwrap();
    assert!(c.free.is_zero());
    assert_eq!(back(c.total), n("3.5"));
    assert_eq!(back(c.used), n("3.5"));
}

#[test]
fn collateral_is_normalized_like_a_spending_balance() {
    let b = OkexBalance { asset: "USDT".into(), cash_bal: Some(d("100")), avail_bal: Some(d("60.25")) };
    let c = b.clone().to_raw_collateral().unwrap();
    let r = b.to_raw_balance(0).unwrap();
    assert_eq!(c.symbol, "USDT");
    assert_eq!(back(c.total), n("100"));
    assert_eq!(back(c.free), n("60.25"));
    assert_eq!(back(c.used), n("39.75"));
    assert_eq!((c.free, c.used, c.total), (r.free, r.used, r.total));
    let max = Dec::from_parts(79228162514264337593543950335, 0).unwrap();
    let min = Dec::from_parts(-79228162514264337593543950335, 0).unwrap();
    let bad = OkexBalance { asset: "X".into(), cash_bal: Some(max), avail_bal: Some(min) };
    assert!(matches!(bad.to_raw_collateral(), Err(DriverError::NumericConversionFailure(_))));
}

#[test]
fn balance_difference_out_of_range_fails() {
    let max = Dec::from_parts(79228162514264337593543950335, 0).unwrap();
    let min = Dec::from_parts(-79228162514264337593543950335, 0).unwrap();
    let b = OkexBalance { asset: "X".into(), cash_bal: Some(max), avail_bal: Some(min) };
    assert!(matches!(b.to_raw_balance(0), Err(DriverError::NumericConversionFailure(_))));
}

fn update(details: Vec<OkexBalanceUpdate>) -> OkexBalancesUpdate {
    OkexBalancesUpdate {
        details,
        exchange_initial_margin: d("30"),
        total_collateral: d("100"),
        notional_usd: d("500"),
        total_maintenance_margin: d("10"),
    }
}

#[test]
fn empty_update_gives_no_balances() {
    assert!(update(vec![]).to_raw_balances(0).unwrap().is_empty());
}

#[test]
fn update_balances_in_order() {
    let u = update(vec![
        OkexBalanceUpdate { asset: "LTC".into(), unrealized_pnl: None, cash_bal: Some(d("0.1233")), avail_bal: Some(d("0.1233")) },
        OkexBalanceUpdate { asset: "USDT".into(), unrealized_pnl: None, cash_bal: Some(d("5")), avail_bal: Some(d("4")) },
    ]);
    let r = u.to_raw_balances(1).unwrap();
    assert_eq!(r.len(), 2);
    assert_eq!(r[0].symbol, "LTC");
    assert!(r[0].used.is_zero());
    assert_eq!(back(r[1].used), n("1"));
}

#[test]
fn margin_figures_sum_pnl_and_subtract_initial_margin() {
    let u = update(vec![
        OkexBalanceUpdate { asset: "BTC".into(), unrealized_pnl: Some(d("1.5")), cash_bal: None, avail_bal: None },
        OkexBalanceUpdate { asset: "ETH".into(), unrealized_pnl: None, cash_bal: None, avail_bal: None },
        OkexBalanceUpdate { asset: "SOL".into(), unrealized_pnl: Some(d("-0.25")), cash_bal: None, avail_bal: None },
    ]);
    let m = u.margin_figures().unwrap();
    assert_eq!(back(m.unrealized_pnl), n("1.25"));
    assert_eq!(back(m.available_collateral), n("70"));
    assert_eq!(back(m.total_collateral), n("100"));
    assert_eq!(back(m.total_position_notional), n("500"));
    assert_eq!(back(m.total_maintenance_margin), n("10"));
    assert_eq!(back(m.exchange_initial_margin), n("30"));
}

#[test]
fn margin_available_collateral_saturates() {
    let min = Dec::from_parts(-79228162514264337593543950335, 0).unwrap();
    let mut u = update(vec![]);
    u.total_collateral = min;
    u.exchange_initial_margin = d("1");
    let m = u.margin_figures().unwrap();
    assert_eq!(back(m.available_collateral), Decimal::MIN);
    assert!(m.unrealized_pnl.is_zero());
}

#[test]
fn margin_pnl_overflow_fails_snapshot() {
    let max = Dec::from_parts(79228162514264337593543950335, 0).unwrap();
    let u = update(vec![
        OkexBalanceUpdate { asset: "A".into(), unrealized_pnl: Some(max), cash_bal: None, avail_bal: None },
        OkexBalanceUpdate { asset: "B".into(), unrealized_pnl: Some(max), cash_bal: None, avail_bal: None },
    ]);
    assert!(matches!(u.margin_figures(), Err(DriverError::NumericConversionFailure(_))));
}

#[test]
fn liquidity_codes() {
    assert_eq!(deserialize_to_liquidity("M"), Liquidity::Maker);
    assert_eq!(deserialize_to_liquidity("T"), Liquidity::Taker);
    assert_eq!(deserialize_to_liquidity(""), Liquidity::Unknown);
    assert_eq!(deserialize_to_liquidity("MT"), Liquidity::Unknown);
}

#[test]
fn position_side_by_mode() {
    assert_eq!(OkexPositionSide::from(OkexPositionMode::LongShortMode, Side::Buy), OkexPositionSide::Long);
    assert_eq!(OkexPositionSide::from(OkexPositionMode::LongShortMode, Side::Sell), OkexPositionSide::Short);
    assert_eq!(OkexPositionSide::from(OkexPositionMode::NetMode, Side::Buy), OkexPositionSide::Net);
    assert_eq!(OkexPositionSide::from(OkexPositionMode::NetMode, Side::Sell), OkexPositionSide::Net);
    assert_eq!(OkexPositionMode::default(), OkexPositionMode::NetMode);
}

#[test]
fn connection_status_and_features() {
    assert!(ConnectionStatus::Online.check_online().is_ok());
    assert!(matches!(ConnectionStatus::Offline.check_online(), Err(DriverError::Generic(_))));
    assert!(supports_feature(DriverFeature::PostOnlyOrders));
    assert!(supports_feature(DriverFeature::ImmediateOrCancelOrders));
    assert!(!supports_feature(DriverFeature::BatchOpen));
    assert!(!supports_feature(DriverFeature::BatchCancel));
}

#[test]
fn transaction_types_of_bill_types() {
    assert_eq!(TransactionType::from(OkexBillType::MarginTransfer), TransactionType::MarginFee);
    assert_eq!(TransactionType::from(OkexBillType::FundingFee), TransactionType::FundingFee);
    assert_eq!(TransactionType::from(OkexBillType::Trade), TransactionType::Trade);
    assert_eq!(TransactionType::from(OkexBillType::Transfer), TransactionType::Transfer);
    assert_eq!(
        TransactionType::from(OkexBillType::Other("x\"y".into())),
        TransactionType::Other("Other(\"x\\\"y\")".into())
    );
}

fn bill(type_: u64, fee: Option<&str>) -> OkexBillResponse {
    OkexBillResponse {
        type_,
        ts: 1695033476167,
        amount: d("0.021955779"),
        price: None,
        currency: "USDT".into(),
        fee: fee.map(d),
        instrument_id: "BTC-USDT-SWAP".into(),
        order_id: Some("623950854525124608".into()),
        liquidity: Liquidity::Taker,
        updated_at: 1695033476166,
        trade_id: Some("586760148".into()),
    }
}

#[test]
fn funding_fee_bills_become_transactions() {
    let bills = vec![bill(2, Some("-1")), bill(8, Some("-0.5")), bill(8, None)];
    let r = funding_transactions(&bills, "okx", &"bot".to_string(), &"op".to_string());
    assert_eq!(r.len(), 2);
    assert_eq!(r[0].side, Side::Sell);
    assert_eq!(r[1].side, Side::Buy);
    assert_eq!(r[0].exchange, "okx");
    assert_eq!(r[0].trade_id, "586760148");
    assert_eq!(r[0].order_id, "623950854525124608");
    assert_eq!(r[0].symbol, "BTC-USDT-SWAP");
    assert!(r[0].price.is_zero());
    assert_eq!(r[0].base_currency, "USDT");
    assert_eq!(r[0].fee_currency.as_deref(), Some("USDT"));
    assert_eq!(r[0].transaction_type, TransactionType::FundingFee);
    assert_eq!(r[0].date, 1695033476166);
    assert_eq!(r[0].created_at, 1695033476167);
    assert!(r[0].level_id.is_empty());
}

#[test]
fn position_mode_confirmation() {
    assert_eq!(confirm_position_mode(OkexPositionMode::NetMode, OkexPositionMode::NetMode), Ok(()));
    assert!(matches!(
        confirm_position_mode(OkexPositionMode::NetMode, OkexPositionMode::LongShortMode),
        Err(DriverError::Generic(_))
    ));
}

#[test]
fn balances_come_from_last_account_entry() {
    let entry = |asset: &str| vec![OkexBalance { asset: asset.into(), cash_bal: None, avail_bal: None }];
    let r = account_balances(Some(vec![entry("A"), entry("B")])).unwrap();
    assert_eq!(r.len(), 1);
    assert_eq!(r[0].asset, "B");
    assert!(matches!(account_balances(Some(vec![])), Err(DriverError::BalanceError(_))));
    assert!(matches!(account_balances(None), Err(DriverError::BalanceError(_))));
}

#[test]
fn position_mode_reply_takes_last_entry() {
    assert_eq!(
        position_mode_reply(Some(vec![OkexPositionMode::NetMode, OkexPositionMode::LongShortMode])),
        Ok(OkexPositionMode::LongShortMode)
    );
    assert!(matches!(position_mode_reply(Some(vec![])), Err(DriverError::ParseFailure(_))));
    assert!(matches!(position_mode_reply(None), Err(DriverError::ParseFailure(_))));
}

#[test]
fn margin_figures_succeed_on_representable_figures() {
    let u = update(vec![
        OkexBalanceUpdate { asset: "BTC".into(), unrealized_pnl: Some(d("2")), cash_bal: Some(d("10")), avail_bal: Some(d("3")) },
    ]);
    let m = u.margin_figures().unwrap();
    assert_eq!(back(m.unrealized_pnl), n("2"));
    let b = u.to_raw_balances(0).unwrap();
    assert_eq!(back(b[0].used), n("7"));
}
