use trading_backend::decimal::{parse_exact, Dec};
use trading_backend::deriv::{candle_request_count, contract_terms, quote_from_price, to_deriv_symbol, ws_url};
use trading_backend::domain::Side;

fn d(s: &str) -> Dec {
    parse_exact(s).unwrap()
}

#[test]
fn human_symbols_map_to_deriv_names() {
    assert_eq!(to_deriv_symbol("EUR/USD"), "frxEURUSD");
    assert_eq!(to_deriv_symbol(" R_100 "), "R_100");
    assert_eq!(to_deriv_symbol("frxGBPJPY"), "frxGBPJPY");
    assert_eq!(to_deriv_symbol("BOOM500"), "BOOM500");
    assert_eq!(to_deriv_symbol("1HZ100V"), "1HZ100V");
    assert_eq!(to_deriv_symbol("gbp-jpy"), "frxgbpjpy");
}

#[test]
fn deriv_symbol_is_idempotent() {
    for s in ["EUR/USD", " R_100 ", "xau usd", "stpRNG"] {
        let once = to_deriv_symbol(s);
        assert_eq!(to_deriv_symbol(&once), once);
    }
}

#[test]
fn candle_count_is_clamped() {
    assert_eq!(candle_request_count(0), 1);
    assert_eq!(candle_request_count(300), 300);
    assert_eq!(candle_request_count(9000), 5000);
}

#[test]
fn quote_has_a_millionth_spread() {
    let q = quote_from_price("R_100", &d("1000"), 7).unwrap();
    assert!(q.bid.eq(&d("999.999")));
    assert!(q.ask.eq(&d("1000.001")));
    assert_eq!(q.symbol, "R_100");
    assert_eq!(q.ts, 7);
    assert!(quote_from_price("X", &Dec::max_value(), 0).is_none());
}

#[test]
fn contract_terms_follow_the_side() {
    assert_eq!(contract_terms(Side::Buy, None), ("CALL".to_string(), 300));
    assert_eq!(contract_terms(Side::Sell, Some(5)), ("PUT".to_string(), 15));
    assert_eq!(contract_terms(Side::Sell, Some(60)), ("PUT".to_string(), 60));
}

#[test]
fn websocket_url() {
    assert_eq!(ws_url(""), "wss://ws.derivws.com/websockets/v3?app_id=1089");
    assert_eq!(ws_url("42"), "wss://ws.derivws.com/websockets/v3?app_id=42");
}
