use trading_backend::analytics::{analytics_summary, strategy_perf, win_rate, TradeCounts};
use trading_backend::decimal::{parse_exact, Dec};

fn d(s: &str) -> Dec {
    parse_exact(s).unwrap()
}

#[test]
fn win_rate_over_closed_trades() {
    assert!(win_rate(3, 4).unwrap().eq(&d("0.75")));
    assert!(win_rate(0, 0).unwrap().is_zero());
    assert!(win_rate(5, -1).unwrap().is_zero());
}

#[test]
fn account_summary() {
    let counts = TradeCounts { total: 6, open: 2, closed: 4, wins: 1, losses: 3 };
    let s = analytics_summary("acc".to_string(), counts, d("-12.5"), d("-3.125"), Some(d("10")), None).unwrap();
    assert_eq!(s.account_id, "acc");
    assert_eq!(s.total_trades, 6);
    assert_eq!(s.open_trades, 2);
    assert_eq!(s.closed_trades, 4);
    assert_eq!(s.losing_trades, 3);
    assert!(s.win_rate.eq(&d("0.25")));
    assert_eq!(s.total_pnl.to_text(), "-12.5");
    assert!(s.worst_trade.is_none());
}

#[test]
fn strategy_record() {
    let p = strategy_perf("s1".to_string(), 5, 0, 0, Dec::zero()).unwrap();
    assert_eq!(p.trades, 5);
    assert!(p.win_rate.is_zero());
    let p = strategy_perf("s2".to_string(), 2, 2, 1, d("4")).unwrap();
    assert!(p.win_rate.eq(&d("0.5")));
}
