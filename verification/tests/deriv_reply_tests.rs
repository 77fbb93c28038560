use trading_backend::decimal::{parse_exact, Dec};
use trading_backend::domain::Side;
use trading_backend::deriv_replies::{
    balance_from_reply, buy_request, candles_from_reply, order_outcome, proposal_outcome, proposal_request,
    quote_from_reply, BalanceReply, BoughtContract, BuyReply, CandlesReply, MarketError, OrderRequest, ProposalReply,
    RawCandle, ReplyError, TickHistory, TicksReply,
};
use trading_backend::deriv_session::{
    after_authorize, after_connect, after_socket_closed, before_request, connect_failed, reply_target, Session, Step,
};

fn d(s: &str) -> Dec {
    parse_exact(s).unwrap()
}

fn raw(epoch: i64, close: Option<&str>) -> RawCandle {
    RawCandle { epoch: Some(epoch), open: Some(d("1")), high: Some(d("2")), low: Some(d("0.5")), close: close.map(d) }
}

fn message(e: MarketError) -> String {
    e.message()
}

#[test]
fn candles_from_a_reply() {
    let reply = CandlesReply { error: None, candles: Some(vec![raw(1_700_000_000, Some("1.5")), raw(1_700_000_060, Some("1.7"))]) };
    let bars = candles_from_reply("R_100", &reply, 42).unwrap();
    assert_eq!(bars.len(), 2);
    assert_eq!(bars[1].ts, 1_700_000_060);
    assert_eq!(bars[1].close.to_text(), "1.7");
    assert_eq!(bars[0].symbol, "R_100");
    assert!(bars[0].volume.is_zero());
}

#[test]
fn candle_reply_errors() {
    let e = ReplyError { message: Some("Market is closed".to_string()) };
    let r = candles_from_reply("R_100", &CandlesReply { error: Some(e), candles: None }, 0);
    assert_eq!(message(r.unwrap_err()), "deriv candles: Market is closed");
    let r = candles_from_reply("R_100", &CandlesReply { error: None, candles: None }, 0);
    assert_eq!(message(r.unwrap_err()), "deriv: no candles in response");
    let reply = CandlesReply { error: None, candles: Some(vec![raw(1, Some("1")), raw(2, None)]) };
    assert_eq!(message(candles_from_reply("R_100", &reply, 0).unwrap_err()), "deriv: bad close");
    let out_of_range = CandlesReply { error: None, candles: Some(vec![raw(i64::MAX, Some("1"))]) };
    assert_eq!(candles_from_reply("R_100", &out_of_range, 42).unwrap()[0].ts, 42);
}

#[test]
fn quote_from_the_latest_tick() {
    let reply = TicksReply {
        error: None,
        prices: None,
        epochs: None,
        history: Some(TickHistory { prices: Some(vec![Some(d("999")), Some(d("1000"))]), times: Some(vec![Some(5), Some(7)]) }),
    };
    let q = quote_from_reply("R_100", &reply, 100).unwrap();
    assert!(q.bid.eq(&d("999.999")));
    assert!(q.ask.eq(&d("1000.001")));
    assert_eq!(q.ts, 7);
    let none = TicksReply { error: None, prices: Some(vec![]), epochs: None, history: None };
    assert_eq!(message(quote_from_reply("R_100", &none, 0).unwrap_err()), "deriv: no tick price");
    let err = TicksReply { error: Some(ReplyError { message: None }), prices: None, epochs: None, history: None };
    assert_eq!(message(quote_from_reply("R_100", &err, 0).unwrap_err()), "deriv quote: unknown");
}

#[test]
fn order_replies() {
    let p = ProposalReply { error: None, proposal_id: Some("abc".to_string()), ask_price: None };
    let (id, price) = proposal_outcome(&p, &d("10")).unwrap();
    assert_eq!(id, "abc");
    assert_eq!(price.to_text(), "10");
    let missing = ProposalReply { error: None, proposal_id: None, ask_price: Some(d("9")) };
    assert_eq!(message(proposal_outcome(&missing, &d("10")).unwrap_err()), "deriv: missing proposal id");
    let buy = BuyReply { error: None, buy: Some(BoughtContract { contract_id: Some(123456), price: None }), balance: Some(d("990")) };
    let o = order_outcome(&buy, &d("10"), &d("10"), "fallback".to_string()).unwrap();
    assert_eq!(o.broker_ref, "123456");
    assert_eq!(o.filled_price.to_text(), "10");
    assert_eq!(o.balance_after.to_text(), "990");
    let no_buy = BuyReply { error: None, buy: None, balance: None };
    assert_eq!(message(order_outcome(&no_buy, &d("1"), &d("1"), String::new()).unwrap_err()), "deriv: missing buy object");
    let refused = BuyReply { error: Some(ReplyError { message: Some("Insufficient balance".to_string()) }), buy: None, balance: None };
    assert!(matches!(order_outcome(&refused, &d("1"), &d("1"), String::new()), Err(MarketError::Execution(_))));
}

#[test]
fn balance_reply() {
    assert_eq!(balance_from_reply(&BalanceReply { error: None, balance: Some(d("10000.5")) }).unwrap().to_text(), "10000.5");
    assert_eq!(message(balance_from_reply(&BalanceReply { error: None, balance: None }).unwrap_err()), "deriv: missing balance");
}

#[test]
fn session_reconnects_when_the_token_changes() {
    let s = Session { connected: true, authorized: true, token: "old".to_string() };
    let (next, close, step) = before_request(&s, "old");
    assert!(!close);
    assert_eq!(step, Step::Ready);
    assert!(next.connected);
    let (next, close, step) = before_request(&s, "new");
    assert!(close);
    assert_eq!(step, Step::Connect);
    assert!(!next.connected && !next.authorized);
}

#[test]
fn session_authorization() {
    let (s, step) = after_connect("");
    assert!(s.authorized);
    assert_eq!(step, Step::Ready);
    let (s, step) = after_connect("tok");
    assert!(!s.authorized);
    assert_eq!(step, Step::Authorize);
    let (ok, close, r) = after_authorize(&s, &None);
    assert!(ok.authorized && !close && r.is_ok());
    let (bad, close, r) = after_authorize(&s, &Some(ReplyError { message: None }));
    assert!(!bad.connected && close);
    assert_eq!(message(r.unwrap_err()), "deriv authorize: authorize failed");
    assert!(!after_socket_closed(&ok).connected);
    assert_eq!(message(connect_failed("timeout")), "deriv ws connect: timeout");
}

#[test]
fn replies_route_by_request_id() {
    assert_eq!(reply_target(Some(7)), Some(7));
    assert_eq!(reply_target(Some(0)), None);
    assert_eq!(reply_target(None), None);
}

#[test]
fn quote_spread_overflow_is_reported() {
    let reply = TicksReply { error: None, prices: Some(vec![Some(Dec::max_value())]), epochs: Some(vec![Some(9)]), history: None };
    assert!(matches!(quote_from_reply("R_100", &reply, 0), Err(MarketError::Overflow)));
}

#[test]
fn proposal_request_fields() {
    let req = OrderRequest {
        symbol: "EUR/USD".to_string(),
        side: Side::Sell,
        stake: d("10"),
        duration_secs: Some(5),
        stop_loss_amount: Some(d("3")),
        take_profit_amount: None,
    };
    let p = proposal_request(&req);
    assert_eq!(p.contract_type, "PUT");
    assert_eq!(p.duration, 15);
    assert_eq!(p.duration_unit, "s");
    assert_eq!(p.basis, "stake");
    assert_eq!(p.currency, "USD");
    assert_eq!(p.symbol, "frxEURUSD");
    assert_eq!(p.amount.to_text(), "10");
    assert!(p.stop_loss.is_some() && p.take_profit.is_none());
    let (id, price) = buy_request(&"pid".to_string(), &d("9.5"));
    assert_eq!(id, "pid");
    assert_eq!(price.to_text(), "9.5");
}
