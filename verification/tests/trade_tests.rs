use trading_backend::decimal::{parse_exact, Dec};
use trading_backend::deriv::Quote;
use trading_backend::domain::{AssetClass, Side, TradingMode};
use trading_backend::trade::{
    analyze_request, asset_class_for, entry_for, parse_direction, place_trade, trade_levels, trade_message, trade_stake,
    TradeAccount, TradeRequest,
    TradeError,
};

fn d(s: &str) -> Dec {
    parse_exact(s).unwrap()
}

#[test]
fn directions() {
    assert_eq!(parse_direction("buy"), Ok(Side::Buy));
    assert_eq!(parse_direction("sell"), Ok(Side::Sell));
    assert_eq!(parse_direction("hold"), Err(TradeError::BadDirection));
    assert_eq!(TradeError::BadDirection.message(), "direction must be 'buy' or 'sell'");
}

#[test]
fn asset_class_from_symbol() {
    assert_eq!(asset_class_for("frxEURUSD", None), AssetClass::Forex);
    assert_eq!(asset_class_for("R_100", None), AssetClass::DerivIndex);
    assert_eq!(asset_class_for("R_100", Some(AssetClass::Forex)), AssetClass::Forex);
}

#[test]
fn entry_at_the_right_side_of_the_quote() {
    let q = Quote { symbol: "R_100".to_string(), bid: d("99"), ask: d("101"), ts: 0 };
    assert_eq!(entry_for(Side::Buy, &q).to_text(), "101");
    assert_eq!(entry_for(Side::Sell, &q).to_text(), "99");
}

#[test]
fn levels_from_the_atr() {
    let (sl, tp) = trade_levels(Side::Buy, &d("100"), &d("30"), "R_100").unwrap();
    assert!(sl.eq(&d("70")) && tp.eq(&d("160")));
    let (sl, tp) = trade_levels(Side::Sell, &d("100"), &d("5"), "R_100").unwrap();
    assert!(sl.eq(&d("120")) && tp.eq(&d("60")));
    let (sl, tp) = trade_levels(Side::Buy, &d("1.1000"), &d("0.0005"), "frxEURUSD").unwrap();
    assert!(sl.eq(&d("1.0980")) && tp.eq(&d("1.1040")));
}

#[test]
fn stake_defaults_to_one_percent() {
    assert!(trade_stake(None, &d("10000")).unwrap().eq(&d("100")));
    assert!(trade_stake(Some(d("25")), &d("10000")).unwrap().eq(&d("25")));
}

#[test]
fn trade_confirmation_text() {
    assert_eq!(trade_message("buy", "R_100", &d("101.5")), "Trade placed: buy R_100 at 101.5");
}

#[test]
fn analysis_requests_default_to_five_minutes() {
    let r = analyze_request("R_100".to_string(), None);
    assert_eq!(r.timeframe_minutes, 5);
    assert_eq!(r.symbol, "R_100");
}

fn account() -> TradeAccount {
    TradeAccount { id: "acc-1".to_string(), balance: d("10000"), mode: TradingMode::Paper }
}

fn request(direction: &str, stake: Option<Dec>) -> TradeRequest {
    TradeRequest {
        symbol: "R_100".to_string(),
        direction: direction.to_string(),
        timeframe_minutes: 5,
        stake,
        asset_class: None,
    }
}

#[test]
fn placing_a_trade() {
    let q = Quote { symbol: "R_100".to_string(), bid: d("99"), ask: d("101"), ts: 0 };
    let t = place_trade(&request("buy", None), &q, &account(), Some(d("30"))).unwrap();
    assert_eq!(t.side, Side::Buy);
    assert_eq!(t.account_id, "acc-1");
    assert_eq!(t.strategy_id, "00000000-0000-0000-0000-000000000000");
    assert_eq!(t.entry_price.to_text(), "101");
    assert!(t.stop_loss.eq(&d("71")) && t.take_profit.eq(&d("161")));
    assert!(t.size.eq(&d("100")));
    assert_eq!(t.mode, TradingMode::Paper);
    let s = place_trade(&request("sell", Some(d("5"))), &q, &account(), None).unwrap();
    assert_eq!(s.entry_price.to_text(), "99");
    assert!(s.stop_loss.eq(&d("119")) && s.take_profit.eq(&d("59")));
    assert!(s.size.eq(&d("5")));
    assert!(matches!(place_trade(&request("hold", None), &q, &account(), None), Err(TradeError::BadDirection)));
    assert_eq!(TradeError::Overflow.message(), "arithmetic overflow");
}
