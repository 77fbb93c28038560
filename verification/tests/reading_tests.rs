use trading_backend::reading::{
    default_tf, format_countdown, market_session, pattern_meaning, pattern_sentiment, recommend_timeframe,
    session_quality, utc_hour,
};

const MIDNIGHT: i64 = 1_699_920_000; // 2023-11-14 00:00:00 UTC

#[test]
fn default_timeframe_is_five_minutes() {
    assert_eq!(default_tf(), 5);
}

#[test]
fn utc_hour_of_timestamps() {
    assert_eq!(utc_hour(MIDNIGHT), 0);
    assert_eq!(utc_hour(MIDNIGHT + 14 * 3600 + 59), 14);
    assert_eq!(utc_hour(-1), 23);
}

#[test]
fn sessions_by_hour() {
    assert_eq!(market_session(MIDNIGHT + 3 * 3600), "Asian Session");
    assert_eq!(market_session(MIDNIGHT + 9 * 3600), "London Session");
    assert_eq!(market_session(MIDNIGHT + 14 * 3600), "London-NY Overlap (High Volatility)");
    assert_eq!(market_session(MIDNIGHT + 18 * 3600), "New York Session");
    assert_eq!(market_session(MIDNIGHT + 23 * 3600), "Off-Hours (Low Liquidity)");
}

#[test]
fn session_quality_scores() {
    let (q, label) = session_quality(MIDNIGHT + 15 * 3600);
    assert_eq!(q.to_text(), "3");
    assert!(label.starts_with("London-NY Overlap"));
    let (q, _) = session_quality(MIDNIGHT + 22 * 3600);
    assert!(q.is_zero());
}

#[test]
fn timeframe_recommendations() {
    let (tf, hold, _) = recommend_timeframe("boom1000");
    assert_eq!((tf, hold), (5, 10));
    let (tf, hold, reason) = recommend_timeframe("frxEURUSD");
    assert_eq!((tf, hold), (15, 30));
    assert!(reason.starts_with("Forex"));
    let (tf, hold, _) = recommend_timeframe("EUR/USD");
    assert_eq!((tf, hold), (15, 30));
    let (tf, hold, reason) = recommend_timeframe("R_100");
    assert_eq!((tf, hold), (5, 10));
    assert!(reason.starts_with("Synthetic"));
    let (_, _, reason) = recommend_timeframe("XYZ");
    assert_eq!(reason, "Default: 5-min chart, 10-min hold.");
}

#[test]
fn countdown_formatting() {
    assert_eq!(format_countdown(0), "0s");
    assert_eq!(format_countdown(-5), "0s");
    assert_eq!(format_countdown(45), "45s");
    assert_eq!(format_countdown(125), "2m 5s");
    assert_eq!(format_countdown(600), "10m 0s");
}

#[test]
fn pattern_meanings_and_sentiments() {
    assert_eq!(pattern_meaning("hammer"), "Small body at top, long lower wick. Buyers rejected lower prices.");
    assert_eq!(pattern_meaning("unknown"), "Pattern detected.");
    let (d, w) = pattern_sentiment("bullish_engulfing");
    assert_eq!((d, w.to_text()), (1, "3".to_string()));
    let (d, w) = pattern_sentiment("bearish_candle");
    assert_eq!((d, w.to_text()), (-1, "0.5".to_string()));
    let (d, w) = pattern_sentiment("doji");
    assert_eq!(d, 0);
    assert!(w.is_zero());
}
