use trading_backend::backtest::{
    check_exit, levels, position_size, result_moments, return_moments, run, sharpe_from_moments, with_sharpe,
    BacktestError, BarReading, OpenPos,
    WARMUP,
};
use trading_backend::decimal::{parse_exact, Dec};
use trading_backend::domain::{AssetClass, Candle, Rule, Side, Strategy};
use trading_backend::engine::{evaluate_at, evaluate_strategy, strategy_symbol, EngineError, STRATEGY_CANDLES};
use trading_backend::indicators::Indicators;
use trading_backend::trade::{default_balance, default_candles};

fn d(s: &str) -> Dec {
    parse_exact(s).unwrap()
}

fn same(x: &Dec, s: &str) -> bool {
    x.eq(&d(s))
}

fn bar(ts: i64, low: &str, high: &str, close: &str) -> Candle {
    Candle {
        symbol: "R_100".to_string(),
        ts,
        open: d(close),
        high: d(high),
        low: d(low),
        close: d(close),
        volume: Dec::zero(),
    }
}

fn ind(price: &str, change: &str) -> Indicators {
    Indicators {
        price: d(price),
        adx: d("20"),
        macd: None,
        bb_lower: d("0"),
        bb_upper: d("0"),
        bb_width_pct: d("0"),
        stoch_k: d("50"),
        consecutive_bullish: 0,
        consecutive_bearish: 0,
        rsi_divergence: String::new(),
        swing_high: d("0"),
        swing_low: d("0"),
        pct_change: d(change),
        rsi: vec![],
        ema: vec![],
        atr: vec![],
        patterns: vec![],
    }
}

fn rule(name: &str, weight: &str, enabled: bool) -> Rule {
    Rule { name: name.to_string(), expr: "price > ema(50)".to_string(), weight: d(weight), enabled }
}

fn strategy() -> Strategy {
    Strategy {
        name: "Test".to_string(),
        asset_class: AssetClass::DerivIndex,
        symbols: vec!["R_100".to_string()],
        stop_loss: Some(d("10")),
        take_profit: Some(d("20")),
        risk_per_trade: d("0.01"),
    }
}

fn pos(side: Side) -> OpenPos {
    OpenPos {
        side,
        entry_ts: 0,
        entry_price: d("100"),
        stop: Some(d("90")),
        take_profit: Some(d("120")),
        strength: Dec::one(),
        size: d("10"),
    }
}

#[test]
fn defaults() {
    assert_eq!(default_candles(), 1000);
    assert_eq!(default_balance().to_text(), "10000");
    assert_eq!(WARMUP, 210);
}

#[test]
fn stop_loss_is_checked_before_take_profit() {
    let (price, reason) = check_exit(&pos(Side::Buy), &bar(1, "85", "125", "100")).unwrap();
    assert_eq!((price.to_text(), reason.as_str()), ("90".to_string(), "stop_loss"));
    let (price, reason) = check_exit(&pos(Side::Buy), &bar(1, "95", "125", "100")).unwrap();
    assert_eq!((price.to_text(), reason.as_str()), ("120".to_string(), "take_profit"));
    assert!(check_exit(&pos(Side::Buy), &bar(1, "95", "105", "100")).is_none());
    let mut short = pos(Side::Sell);
    short.stop = Some(d("110"));
    short.take_profit = Some(d("80"));
    let (price, reason) = check_exit(&short, &bar(1, "79", "111", "100")).unwrap();
    assert_eq!((price.to_text(), reason.as_str()), ("110".to_string(), "stop_loss"));
}

#[test]
fn profit_and_loss_of_a_position() {
    assert_eq!(pos(Side::Buy).pnl(&d("120")).unwrap().to_text(), "200");
    assert_eq!(pos(Side::Sell).pnl(&d("120")).unwrap().to_text(), "-200");
    assert_eq!(pos(Side::Buy).unrealized(&d("100.12345")).unwrap().to_text(), "1.2345");
}

#[test]
fn levels_in_pips_and_points() {
    let (sl, tp) = levels(&strategy(), Side::Buy, &d("100")).unwrap();
    assert_eq!((sl.unwrap().to_text(), tp.unwrap().to_text()), ("90".to_string(), "120".to_string()));
    let mut fx = strategy();
    fx.asset_class = AssetClass::Forex;
    let (sl, tp) = levels(&fx, Side::Sell, &d("1.1")).unwrap();
    assert_eq!((sl.unwrap().to_text(), tp.unwrap().to_text()), ("1.1010".to_string(), "1.0980".to_string()));
    let mut none = strategy();
    none.stop_loss = None;
    let (sl, _) = levels(&none, Side::Buy, &d("100")).unwrap();
    assert!(sl.is_none());
}

#[test]
fn position_sizing() {
    assert!(same(&position_size(&d("10000"), &d("0.01"), &d("100"), Some(d("90"))).unwrap(), "10"));
    assert!(same(&position_size(&d("10000"), &d("0.01"), &d("100"), None).unwrap(), "1"));
    assert!(position_size(&d("10000"), &d("0.01"), &Dec::zero(), None).is_none());
}

#[test]
fn rule_evaluation() {
    let rules = vec![rule("a", "2", true), rule("b", "1", true), rule("c", "5", false)];
    let sig = evaluate_at(&rules, &vec![true, false, true], &ind("100", "-0.5")).unwrap().unwrap();
    assert_eq!(sig.side, Side::Sell);
    assert_eq!(sig.strength.to_text(), "0.666667");
    assert_eq!(sig.rationale, "Fired rules: a (strength 66.66%)");
    assert_eq!(sig.price.to_text(), "100");
    assert!(evaluate_at(&rules, &vec![false, false, true], &ind("100", "1")).unwrap().is_none());
    assert!(evaluate_at(&vec![rule("c", "5", false)], &vec![true], &ind("100", "1")).unwrap().is_none());
    let big = vec![rule("x", "79228162514264337593543950335", true), rule("y", "79228162514264337593543950335", true)];
    assert!(matches!(evaluate_at(&big, &vec![true, true], &ind("1", "1")), Err(EngineError::Overflow)));
}

#[test]
fn backtest_needs_warmup() {
    let candles: Vec<Candle> = (0..10).map(|i| bar(i, "99", "101", "100")).collect();
    let r = run(&strategy(), &vec![rule("a", "1", true)], &candles, &vec![]);
    assert!(matches!(r, Err(BacktestError::NotEnoughCandles(10))));
    assert_eq!(BacktestError::NotEnoughCandles(10).message(), "need at least 210 candles for warmup, got 10");
}

#[test]
fn backtest_takes_profit() {
    let mut candles: Vec<Candle> = (0..210).map(|i| bar(i, "99", "101", "100")).collect();
    candles.push(bar(210, "99", "101", "100"));
    candles.push(bar(211, "99", "125", "110"));
    candles.push(bar(212, "99", "101", "100"));
    let readings = vec![
        BarReading { indicators: ind("100", "1"), fired: vec![true] },
        BarReading { indicators: ind("110", "1"), fired: vec![false] },
        BarReading { indicators: ind("100", "1"), fired: vec![false] },
    ];
    let r = match run(&strategy(), &vec![rule("a", "1", true)], &candles, &readings) {
        Ok(r) => r,
        Err(_) => panic!("backtest failed"),
    };
    assert_eq!(r.symbol, "R_100");
    assert_eq!(r.closed_trades, 1);
    assert_eq!(r.winning_trades, 1);
    assert_eq!(r.losing_trades, 0);
    assert_eq!(r.trades[0].exit_reason, "take_profit");
    assert!(same(&r.trades[0].pnl, "200"));
    assert!(same(&r.final_equity, "10200"));
    assert!(same(&r.total_pnl, "200"));
    assert!(same(&r.total_return_pct, "2.00"));
    assert!(same(&r.win_rate, "1"));
    assert_eq!(r.equity_curve.len(), 3);
    assert!(same(&r.equity_curve[0].equity, "10000"));
    assert!(same(&r.equity_curve[1].equity, "10200"));
    assert_eq!(r.closed_trades, r.winning_trades + r.losing_trades);
}

#[test]
fn open_position_closes_at_end_of_data() {
    let mut candles: Vec<Candle> = (0..210).map(|i| bar(i, "99", "101", "100")).collect();
    candles.push(bar(210, "99", "101", "100"));
    candles.push(bar(211, "95", "101", "95"));
    let readings = vec![
        BarReading { indicators: ind("100", "1"), fired: vec![true] },
        BarReading { indicators: ind("95", "1"), fired: vec![false] },
    ];
    let r = match run(&strategy(), &vec![rule("a", "1", true)], &candles, &readings) {
        Ok(r) => r,
        Err(_) => panic!("backtest failed"),
    };
    assert_eq!(r.closed_trades, 1);
    assert_eq!(r.losing_trades, 1);
    assert_eq!(r.trades[0].exit_reason, "end_of_data");
    assert!(same(&r.trades[0].pnl, "-50"));
    assert!(same(&r.max_drawdown_pct, "0.5000"));
}

#[test]
fn return_moments_for_sharpe() {
    assert!(return_moments(&vec![d("1")]).unwrap().is_none());
    let (mean, var) = return_moments(&vec![d("1"), d("3")]).unwrap().unwrap();
    assert_eq!(mean.to_text(), "2");
    assert_eq!(var.to_text(), "1");
}

#[test]
fn sharpe_from_moments_cases() {
    assert!(sharpe_from_moments(&d("2"), &Dec::zero(), &d("1")).unwrap().is_zero());
    assert!(sharpe_from_moments(&d("2"), &d("1"), &Dec::zero()).unwrap().is_zero());
    assert!(sharpe_from_moments(&d("2"), &d("1"), &d("1")).unwrap().eq(&d("2")));
    assert!(sharpe_from_moments(&d("3"), &d("4"), &d("2")).unwrap().eq(&d("1.5")));
}

#[test]
fn opposite_signal_closes_the_position() {
    let mut candles: Vec<Candle> = (0..210).map(|i| bar(i, "99", "101", "100")).collect();
    candles.push(bar(210, "99", "101", "100"));
    candles.push(bar(211, "95", "105", "102"));
    let readings = vec![
        BarReading { indicators: ind("100", "1"), fired: vec![true] },
        BarReading { indicators: ind("102", "-1"), fired: vec![true] },
    ];
    let r = match run(&strategy(), &vec![rule("a", "1", true)], &candles, &readings) {
        Ok(r) => r,
        Err(_) => panic!("backtest failed"),
    };
    assert_eq!(r.closed_trades, 2);
    assert_eq!(r.trades[0].side, Side::Buy);
    assert_eq!(r.trades[0].exit_reason, "opposite_signal");
    assert_eq!(r.trades[0].exit_ts, 211);
    assert!(same(&r.trades[0].exit_price, "102"));
    assert_eq!(r.trades[1].side, Side::Sell);
    assert_eq!(r.trades[1].exit_reason, "end_of_data");
}

#[test]
fn sharpe_is_filled_in_from_the_deviation() {
    let mut candles: Vec<Candle> = (0..210).map(|i| bar(i, "99", "101", "100")).collect();
    candles.push(bar(210, "99", "101", "100"));
    candles.push(bar(211, "95", "105", "102"));
    let readings = vec![
        BarReading { indicators: ind("100", "1"), fired: vec![true] },
        BarReading { indicators: ind("102", "-1"), fired: vec![true] },
    ];
    let r = match run(&strategy(), &vec![rule("a", "1", true)], &candles, &readings) {
        Ok(r) => r,
        Err(_) => panic!("backtest failed"),
    };
    assert!(r.sharpe_ratio.is_zero());
    let (mean, var) = result_moments(&r).unwrap().unwrap();
    assert!(!var.is_zero());
    let r2 = with_sharpe(r, &d("2")).unwrap();
    assert!(r2.sharpe_ratio.eq(&mean.div(&d("2")).unwrap()));
    assert_eq!(r2.closed_trades, 2);
}

#[test]
fn strategy_evaluation_needs_a_symbol_and_candles() {
    assert_eq!(STRATEGY_CANDLES, 250);
    assert_eq!(strategy_symbol(&strategy()), Some("R_100".to_string()));
    let mut none = strategy();
    none.symbols = vec![String::new()];
    assert_eq!(strategy_symbol(&none), None);
    none.symbols = vec![];
    assert_eq!(strategy_symbol(&none), None);
    let rules = vec![rule("a", "1", true)];
    assert!(evaluate_strategy(0, &rules, &vec![true], &ind("100", "1")).unwrap().is_none());
    let s = evaluate_strategy(250, &rules, &vec![true], &ind("100", "1")).unwrap().unwrap();
    assert_eq!(s.side, Side::Buy);
    assert!(s.strength.eq(&d("1")));
}

#[test]
fn a_millionth_share_keeps_a_positive_strength() {
    let rules = vec![rule("a", "1", true), rule("b", "999999", true)];
    let sig = evaluate_at(&rules, &vec![true, false], &ind("100", "1")).unwrap().unwrap();
    assert!(same(&sig.strength, "0.000001"));
    let tiny = vec![rule("a", "1", true), rule("b", "10000000", true)];
    let sig = evaluate_at(&tiny, &vec![true, false], &ind("100", "1")).unwrap().unwrap();
    assert!(same(&sig.strength, "0"));
}
