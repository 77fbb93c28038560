use trading_backend::domain::AssetClass;
use trading_backend::domain::TradingMode;
use trading_backend::seeder::{builtin_notes, builtin_strategies, seed_if_empty};

#[test]
fn twelve_builtin_strategies() {
    let s = builtin_strategies();
    assert_eq!(s.len(), 12);
    assert_eq!(s[0].name, "RSI Oversold Reversal");
    assert_eq!(s[0].asset_class, AssetClass::Forex);
    assert_eq!(s[0].stop_loss.as_ref().unwrap().to_text(), "30");
    assert_eq!(s[0].risk_per_trade.to_text(), "0.01");
    assert_eq!(s[0].rules.len(), 2);
    assert_eq!(s[0].rules[0].expr, "rsi(14) < 30");
    assert_eq!(s[5].name, "R_100 Hammer Reversal");
    assert_eq!(s[5].asset_class, AssetClass::DerivIndex);
    assert_eq!(s[5].risk_per_trade.to_text(), "0.02");
    assert_eq!(s[1].rules[1].weight.to_text(), "1.5");
}

#[test]
fn five_builtin_notes() {
    let n = builtin_notes();
    assert_eq!(n.len(), 5);
    assert_eq!(n[0].title, "RSI (Relative Strength Index) — How to Use It");
    assert_eq!(n[4].title, "Risk Management — Position Sizing and Stop Losses");
    assert!(n.iter().all(|x| x.content_type == "markdown"));
}

#[test]
fn builtin_strategy_levels() {
    for s in builtin_strategies() {
        let sl = s.stop_loss.unwrap();
        let tp = s.take_profit.unwrap();
        assert_eq!(tp.mantissa, 2 * sl.mantissa);
        assert_eq!(tp.scale, sl.scale);
        assert_eq!(s.symbols.len(), 1);
        assert_eq!(s.asset_class == AssetClass::Forex, s.symbols[0].starts_with("frx"));
        assert!(!s.rules.is_empty());
    }
    let s = builtin_strategies();
    assert_eq!(s[0].take_profit.as_ref().unwrap().to_text(), "60");
    assert_eq!(s[5].symbols, vec!["R_100".to_string()]);
}

#[test]
fn seeding_only_an_empty_database() {
    assert!(seed_if_empty(1).is_none());
    let p = seed_if_empty(0).unwrap();
    assert_eq!(p.account.label, "Demo Account");
    assert_eq!(p.account.broker, "deriv");
    assert_eq!(p.account.account_ref, "demo");
    assert_eq!(p.account.balance.to_text(), "10000");
    assert_eq!(p.account.currency, "USD");
    assert_eq!(p.account.mode, TradingMode::Paper);
    assert_eq!(p.strategies.len(), 12);
    assert_eq!(p.notes.len(), 5);
}
