use trading_backend::conditions::{notes_fact, NoteStrategy};
use trading_backend::decimal::{parse_exact, Dec};
use trading_backend::domain::Rule;
use trading_backend::evidence::{Lean, Tally};

fn d(s: &str) -> Dec {
    parse_exact(s).unwrap()
}

fn rule(name: &str, expr: &str, weight: &str) -> Rule {
    Rule { name: name.to_string(), expr: expr.to_string(), weight: d(weight), enabled: true }
}

#[test]
fn fired_note_rules_count_as_evidence() {
    let s = NoteStrategy {
        name: "Reversal Notes".to_string(),
        symbols: vec!["R_".to_string()],
        rules: vec![rule("top", "Bearish Engulfing == 1", "2"), rule("trend", "price > ema(50)", "1"), rule("off", "rsi(14) < 30", "5")],
        fired: vec![true, true, false],
    };
    let t = notes_fact(Tally::new(), "R_100", &vec![s]).unwrap();
    assert_eq!(t.evidence.len(), 2);
    assert_eq!(t.evidence[0].source, "note");
    assert_eq!(t.evidence[0].confirms, Lean::Sell);
    assert_eq!(
        t.evidence[0].finding,
        "Rule 'top' from note 'Reversal Notes' is TRUE. Expression: Bearish Engulfing == 1."
    );
    assert_eq!(t.evidence[1].confirms, Lean::Buy);
    assert!(t.bear.eq(&d("2")));
    assert!(t.bull.eq(&d("1")));
}

#[test]
fn notes_for_other_symbols_are_ignored() {
    let s = NoteStrategy {
        name: "FX".to_string(),
        symbols: vec!["frxEURUSD".to_string()],
        rules: vec![rule("a", "price > ema(50)", "1")],
        fired: vec![true],
    };
    let t = notes_fact(Tally::new(), "R_100", &vec![s]).unwrap();
    assert!(t.evidence.is_empty());
}
