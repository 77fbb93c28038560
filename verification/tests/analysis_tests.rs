use trading_backend::analysis::{analyze, check_candles, AnalysisError, AnalysisInput, ANALYSIS_CANDLES};
use trading_backend::candles::{aggregate, summarize_candle};
use trading_backend::decimal::{parse_exact, Dec};
use trading_backend::domain::Candle;
use trading_backend::evidence::Lean;
use trading_backend::indicators::Indicators;
use trading_backend::news::NewsAssessment;
use trading_backend::reading::{active_candlestick_pattern, active_chart_pattern, determine_market_state, predict_next_candle};
use trading_backend::upper::{upper_context, upper_factor, upper_timeframes, upper_votes};

const NOW: i64 = 1_699_970_400; // 2023-11-14 14:00:00 UTC

fn d(s: &str) -> Dec {
    parse_exact(s).unwrap()
}

/// `n` rising bullish candles, five minutes apart, the last one opening a
/// minute before `NOW`.
fn rising(n: usize) -> Vec<Candle> {
    let mut v = Vec::new();
    for i in 0..n {
        let open = d(&format!("{}", 100 + i));
        let close = d(&format!("{}.5", 100 + i));
        v.push(Candle {
            symbol: "R_100".to_string(),
            ts: NOW - 60 - 300 * (n - 1 - i) as i64,
            open,
            high: close.add(&d("0.2")).unwrap(),
            low: open.sub(&d("0.2")).unwrap(),
            close,
            volume: Dec::zero(),
        });
    }
    v
}

fn indicators(price: &str) -> Indicators {
    Indicators {
        price: d(price),
        adx: d("30"),
        macd: Some(d("1")),
        bb_lower: d("150"),
        bb_upper: d("170"),
        bb_width_pct: d("50"),
        stoch_k: d("50"),
        consecutive_bullish: 6,
        consecutive_bearish: 0,
        rsi_divergence: "none".to_string(),
        swing_high: d("165"),
        swing_low: d("140"),
        pct_change: d("0.3"),
        rsi: vec![(14, d("60"))],
        ema: vec![(50, d("140")), (200, d("120"))],
        atr: vec![(14, d("1"))],
        patterns: vec![],
    }
}

fn clear_news() -> NewsAssessment {
    NewsAssessment {
        status: "clear".to_string(),
        upcoming_high_impact: vec![],
        upcoming_medium_impact: vec![],
        recently_released: vec![],
        summary: "No high-impact news in the next 30 minutes. Market conditions are clear of news volatility."
            .to_string(),
        recommendation: "No news risk. Normal trading conditions. Proceed with standard risk management.".to_string(),
    }
}

fn input(candles: Vec<Candle>, news: NewsAssessment) -> AnalysisInput {
    AnalysisInput {
        symbol: "R_100".to_string(),
        timeframe_minutes: 5,
        now_ts: NOW,
        candles,
        indicators: indicators("159.5"),
        rsi_earlier: Some(d("58")),
        upper: vec![],
        news,
        strategies: vec![],
    }
}

#[test]
fn too_few_candles_is_an_error() {
    let r = analyze(input(rising(10), clear_news()));
    assert!(matches!(r, Err(AnalysisError::NotEnoughData)));
}

#[test]
fn uptrend_reads_as_buy() {
    let p = match analyze(input(rising(60), clear_news())) {
        Ok(p) => p,
        Err(_) => panic!("analysis failed"),
    };
    assert_eq!(p.direction, "buy");
    assert!(p.evidence_score.eq(&Dec::one()));
    let sources: Vec<&str> = p.evidence.iter().map(|e| e.source.as_str()).collect();
    assert_eq!(
        sources,
        vec![
            "price", "adx", "rsi", "ema", "ema", "price_action", "macd", "bollinger", "stochastic", "fatigue",
            "session", "news", "trend_mode", "ahead"
        ]
    );
    let ema200 = &p.evidence[3];
    assert_eq!(ema200.finding, "Price (159.5) ABOVE EMA200 (120). Macro trend is bullish — bias is BUY.");
    assert_eq!(ema200.confirms, Lean::Buy);
    assert_eq!(p.evidence[5].finding, "Price structure: 4 higher highs vs 0 lower lows. Uptrend structure.");
    assert_eq!(
        p.evidence[9].finding,
        "6 bullish candles in a row — buying exhausting. Bullish conviction dampened by 40.0%."
    );
    assert_eq!(
        p.evidence[13].finding,
        "WARNING: 3+ bullish candles = exhaustion. Next 2 candles may pull back DOWN. Entry is late — use tight stop."
    );
    assert_eq!(p.entry_price.to_text(), "159.5");
    assert_eq!(p.stop_loss.to_text(), "139.5");
    assert_eq!(p.take_profit.to_text(), "199.5");
    assert_eq!(p.market_session, "London-NY Overlap (High Volatility)");
    assert_eq!(p.timeframe_secs, 300);
    assert_eq!(p.seconds_to_next_candle, 0);
    assert_eq!(p.countdown, "0s");
    assert_eq!(p.expiry_ts, NOW + 300);
    assert_eq!(p.estimated_move_candles, 3);
    assert_eq!(p.estimated_move_duration, "15m 0s");
    assert!(p.entry_checklist.ready);
    assert_eq!(p.entry_checklist.details[3], "4. Conviction: YES (100%, bar 58%)");
    assert_eq!(p.entry_checklist.details[7], "ALL CONDITIONS MET — trade is valid.");
    assert_eq!(p.recent_candles.len(), 5);
    assert_eq!(p.recent_candles[4].direction, "bullish");
    assert_eq!(p.recent_candles[4].pattern, "bullish_candle");
    assert_eq!(p.trade_options.len(), 2);
    assert_eq!(p.trade_options[0].option_type, "buy");
    assert!(p.trade_options[0].recommended);
    assert_eq!(p.trade_options[1].option_type, "reversal_down");
    assert!(!p.trade_options[1].recommended);
    assert_eq!(p.what_to_watch.len(), 4);
    assert_eq!(p.what_to_watch[3], "Next candle in 0s — watch the open.");
    assert!(p.reasoning.contains("TRADE BIAS: BUY (evidence: 100.0%)"));
    assert!(p.reasoning.contains("  UTC: 2023-11-14 14:00:00 UTC"));
    assert!(p.reasoning.contains("Horizon: ~3 candles (≈15m 0s)"));
}

#[test]
fn high_impact_news_blocks_the_trade() {
    let mut news = clear_news();
    news.status = "danger".to_string();
    news.summary = "HIGH-IMPACT NEWS IMMINENT: 1 event(s) in the next 30 min (CPI (USD))".to_string();
    let p = match analyze(input(rising(60), news)) {
        Ok(p) => p,
        Err(_) => panic!("analysis failed"),
    };
    assert!(!p.entry_checklist.no_news_risk);
    assert!(!p.entry_checklist.ready);
    assert_eq!(p.what_to_watch[3], "NEWS: HIGH-IMPACT NEWS IMMINENT: 1 event(s) in the next 30 min (CPI (USD))");
}

#[test]
fn candle_summary_of_a_bearish_candle() {
    let c = Candle {
        symbol: "R_100".to_string(),
        ts: 0,
        open: d("10"),
        high: d("10.5"),
        low: d("8"),
        close: d("9"),
        volume: Dec::zero(),
    };
    let s = summarize_candle(&c, &indicators("9"));
    assert_eq!(s.direction, "bearish");
    assert_eq!(s.body.to_text(), "1");
    assert_eq!(s.upper_wick.to_text(), "0.5");
    assert_eq!(s.lower_wick.to_text(), "1");
    assert_eq!(s.pattern, "bearish_candle");
}

#[test]
fn aggregation_groups_candles() {
    let c = rising(7);
    let agg = aggregate(&c, 3).unwrap();
    assert_eq!(agg.len(), 2);
    assert_eq!(agg[0].open.to_text(), "101");
    assert_eq!(agg[0].close.to_text(), "103.5");
    assert_eq!(agg[0].high.to_text(), "103.7");
    assert_eq!(agg[0].low.to_text(), "100.8");
    assert_eq!(agg[0].ts, c[1].ts);
    let same = aggregate(&c, 1).unwrap();
    assert_eq!(same.len(), 7);
}

#[test]
fn upper_timeframe_reading() {
    let tfs = upper_timeframes(5);
    let labels: Vec<&str> = tfs.iter().map(|(_, l)| l.as_str()).collect();
    assert_eq!(labels, vec!["15min", "1H", "4H", "Daily"]);
    assert_eq!(upper_timeframes(60).len(), 2);
    assert_eq!(upper_factor(15, 5), Some(3));
    assert_eq!(upper_factor(15, 10), None);
    let c = rising(3);
    let ctx = upper_context("1H", &c[2], &indicators("159.5"), &d("159.5"));
    assert_eq!(ctx.trend, "bullish");
    assert_eq!(ctx.last_candle_dir, "bullish");
    assert_eq!(ctx.summary, "1H is bullish (RSI 60, ADX 30) — supports BUY");
    let mut bear = ctx.clone();
    bear.trend = "bearish".to_string();
    assert_eq!(upper_votes(&vec![ctx, bear.clone(), bear]), (1, 2));
}

#[test]
fn pattern_readings() {
    let mut ind = indicators("159.5");
    assert_eq!(active_candlestick_pattern(&ind), "No significant pattern");
    assert_eq!(active_chart_pattern(&ind), "No clear chart pattern");
    assert_eq!(determine_market_state(&ind), "trending_up");
    ind.patterns = vec![("hammer".to_string(), Dec::one()), ("double_top".to_string(), Dec::one())];
    assert_eq!(active_candlestick_pattern(&ind), "Hammer (bullish reversal)");
    assert_eq!(active_chart_pattern(&ind), "Double Top (bearish reversal)");
    let (pred, reason) = predict_next_candle(&ind, "buy");
    assert_eq!(pred, "bullish");
    assert_eq!(reason, "Next candle: BULLISH. 2 bullish vs 1 bearish signals: hammer, EMA structure bullish.");
}

#[test]
fn short_history_stops_the_analysis_first() {
    assert_eq!(ANALYSIS_CANDLES, 5000);
    assert_eq!(check_candles(49), Err(AnalysisError::NotEnoughData));
    assert_eq!(check_candles(50), Ok(()));
}

#[test]
fn analysis_error_texts() {
    assert_eq!(AnalysisError::NotEnoughData.message(), "not enough candle data");
    assert_eq!(AnalysisError::Overflow.message(), "arithmetic overflow");
}
