//! Small readings used by the market analysis: sessions, timeframes,
//! pattern names and their meaning, countdowns and market state.
use crate::decimal::{dv_eq, dv_lt, int_dv, scaled_dv, Dec, DecV};
use crate::indicators::{series_get, Indicators};
use crate::text::{contains, has_infix, int_text, join, join_spec, nat_text, starts_with, str_eq, text_upper, texts, to_upper, u64_text};
use vstd::prelude::*;

verus! {

/// Default chart timeframe in minutes.
pub fn default_tf() -> (r: u32)
    ensures
        r == 5,
{
    5
}

/// Hour of the UTC day of a UNIX timestamp.
pub open spec fn hour_of(ts: int) -> int {
    (ts % 86400) / 3600
}

/// Hour of the UTC day (0..=23) of a UNIX timestamp.
pub fn utc_hour(ts: i64) -> (r: u32)
    ensures
        r as int == hour_of(ts as int),
        r < 24,
{
    let secs: u64 = if ts >= 0 {
        (ts as u64) % 86400
    } else {
        let a: u64 = ((-(ts as i128)) as u128 % 86400) as u64;
        if a == 0 {
            0
        } else {
            86400 - a
        }
    };
    proof {
        if ts < 0 {
            let n = -(ts as int);
            assert((ts as int) % 86400 == (if n % 86400 == 0 { 0 } else { 86400 - n % 86400 })) by {
                vstd::arithmetic::div_mod::lemma_fundamental_div_mod(n, 86400);
                let q = n / 86400;
                let rr = n % 86400;
                if rr == 0 {
                    assert(ts as int == (-q) * 86400);
                    vstd::arithmetic::div_mod::lemma_mod_multiples_basic(-q, 86400);
                } else {
                    assert(ts as int == (-q - 1) * 86400 + (86400 - rr));
                    vstd::arithmetic::div_mod::lemma_fundamental_div_mod_converse(
                        ts as int,
                        86400,
                        -q - 1,
                        86400 - rr,
                    );
                }
            }
        }
    }
    (secs / 3600) as u32
}

pub open spec fn session_name(h: int) -> Seq<char> {
    if 0 <= h <= 7 {
        "Asian Session"@
    } else if 8 <= h <= 12 {
        "London Session"@
    } else if 13 <= h <= 16 {
        "London-NY Overlap (High Volatility)"@
    } else if 17 <= h <= 21 {
        "New York Session"@
    } else {
        "Off-Hours (Low Liquidity)"@
    }
}

/// Trading session of a UTC time.
pub fn market_session(now_ts: i64) -> (r: String)
    ensures
        r@ == session_name(hour_of(now_ts as int)),
{
    let h = utc_hour(now_ts);
    if h <= 7 {
        String::from_str("Asian Session")
    } else if h <= 12 {
        String::from_str("London Session")
    } else if h <= 16 {
        String::from_str("London-NY Overlap (High Volatility)")
    } else if h <= 21 {
        String::from_str("New York Session")
    } else {
        String::from_str("Off-Hours (Low Liquidity)")
    }
}

pub open spec fn session_quality_spec(h: int) -> (int, Seq<char>) {
    if 13 <= h <= 16 {
        (3, "London-NY Overlap — highest liquidity, signals most reliable."@)
    } else if 8 <= h <= 12 {
        (2, "London Session — good liquidity, signals reliable."@)
    } else if 17 <= h <= 21 {
        (2, "New York Session — good liquidity, signals reliable."@)
    } else if 0 <= h <= 7 {
        (1, "Asian Session — lower volatility, signals weaker. Reduce position size."@)
    } else {
        (0, "Off-Hours — thin liquidity. Signals unreliable. Best to WAIT."@)
    }
}

/// Liquidity score (0..=3) of the session of a UTC time, with its reason.
pub fn session_quality(now_ts: i64) -> (r: (Dec, String))
    ensures
        r.0.wf(),
        r.0@ == int_dv(session_quality_spec(hour_of(now_ts as int)).0),
        r.1@ == session_quality_spec(hour_of(now_ts as int)).1,
{
    let h = utc_hour(now_ts);
    if h >= 13 && h <= 16 {
        (Dec::from_i64(3), String::from_str("London-NY Overlap — highest liquidity, signals most reliable."))
    } else if h >= 8 && h <= 12 {
        (Dec::from_i64(2), String::from_str("London Session — good liquidity, signals reliable."))
    } else if h >= 17 && h <= 21 {
        (Dec::from_i64(2), String::from_str("New York Session — good liquidity, signals reliable."))
    } else if h <= 7 {
        (Dec::from_i64(1), String::from_str("Asian Session — lower volatility, signals weaker. Reduce position size."))
    } else {
        (Dec::zero(), String::from_str("Off-Hours — thin liquidity. Signals unreliable. Best to WAIT."))
    }
}

pub open spec fn timeframe_advice(upper: Seq<char>) -> (u32, u32, Seq<char>) {
    if "BOOM"@.is_prefix_of(upper) || "CRASH"@.is_prefix_of(upper) {
        (5, 10, "BOOM/CRASH: spike fires in 1-2 candles then fades. 5-min chart, 10-min max hold."@)
    } else if "R_"@.is_prefix_of(upper) || "1HZ"@.is_prefix_of(upper) || "JD"@.is_prefix_of(upper)
        || "STP"@.is_prefix_of(upper) {
        (5, 10, "Synthetic indices: moves are sharp, last 1-2 candles (5-10 min). 10-min max hold."@)
    } else if "FRX"@.is_prefix_of(upper) || has_infix(upper, "/"@) {
        (15, 30, "Forex: slower moves, 2 candles to reach TP. 30-min hold."@)
    } else {
        (5, 10, "Default: 5-min chart, 10-min hold."@)
    }
}

/// Recommended chart timeframe (minutes), holding time (minutes) and the
/// reason, by the kind of instrument the symbol names.
pub fn recommend_timeframe(symbol: &str) -> (r: (u32, u32, String))
    ensures
        r.0 == timeframe_advice(text_upper(symbol@)).0,
        r.1 == timeframe_advice(text_upper(symbol@)).1,
        r.2@ == timeframe_advice(text_upper(symbol@)).2,
{
    let s = to_upper(symbol);
    let s = s.as_str();
    if starts_with(s, "BOOM") || starts_with(s, "CRASH") {
        (5, 10, String::from_str("BOOM/CRASH: spike fires in 1-2 candles then fades. 5-min chart, 10-min max hold."))
    } else if starts_with(s, "R_") || starts_with(s, "1HZ") || starts_with(s, "JD") || starts_with(s, "STP") {
        (5, 10, String::from_str("Synthetic indices: moves are sharp, last 1-2 candles (5-10 min). 10-min max hold."))
    } else if starts_with(s, "FRX") || contains(s, "/") {
        (15, 30, String::from_str("Forex: slower moves, 2 candles to reach TP. 30-min hold."))
    } else {
        (5, 10, String::from_str("Default: 5-min chart, 10-min hold."))
    }
}

pub open spec fn countdown_text(secs: int) -> Seq<char> {
    if secs <= 0 {
        "0s"@
    } else if secs / 60 > 0 {
        int_text(secs / 60) + "m "@ + int_text(secs % 60) + "s"@
    } else {
        int_text(secs % 60) + "s"@
    }
}

/// "Xm Ys" / "Ys" rendering of a number of seconds ("0s" when not positive).
pub fn format_countdown(secs: i64) -> (r: String)
    ensures
        r@ == countdown_text(secs as int),
{
    if secs <= 0 {
        return String::from_str("0s");
    }
    let m: u64 = (secs as u64) / 60;
    let s: u64 = (secs as u64) % 60;
    if m > 0 {
        let mut out = u64_text(m);
        out.append("m ");
        let st = u64_text(s);
        out.append(st.as_str());
        out.append("s");
        out
    } else {
        let mut out = u64_text(s);
        out.append("s");
        out
    }
}

pub open spec fn candlestick_label(ind: Indicators) -> Seq<char> {
    if ind.has("morning_star"@) {
        "Morning Star (bullish reversal)"@
    } else if ind.has("evening_star"@) {
        "Evening Star (bearish reversal)"@
    } else if ind.has("bullish_engulfing"@) {
        "Bullish Engulfing (strong bullish)"@
    } else if ind.has("bearish_engulfing"@) {
        "Bearish Engulfing (strong bearish)"@
    } else if ind.has("hammer"@) {
        "Hammer (bullish reversal)"@
    } else if ind.has("shooting_star"@) {
        "Shooting Star (bearish reversal)"@
    } else if ind.has("three_white_soldiers"@) {
        "Three White Soldiers (strong bullish)"@
    } else if ind.has("three_black_crows"@) {
        "Three Black Crows (strong bearish)"@
    } else if ind.has("doji"@) {
        "Doji (indecision)"@
    } else if ind.has("spinning_top"@) {
        "Spinning Top (indecision)"@
    } else if ind.has("inside_bar"@) {
        "Inside Bar (compression — breakout pending)"@
    } else if ind.has("narrowing_range"@) {
        "Narrowing Range (compression — breakout imminent)"@
    } else {
        "No significant pattern"@
    }
}

/// The strongest candlestick pattern present, by a fixed priority.
pub fn active_candlestick_pattern(ind: &Indicators) -> (r: String)
    requires
        ind.wf(),
    ensures
        r@ == candlestick_label(*ind),
{
    if ind.has_pattern("morning_star") {
        return String::from_str("Morning Star (bullish reversal)");
    }
    if ind.has_pattern("evening_star") {
        return String::from_str("Evening Star (bearish reversal)");
    }
    if ind.has_pattern("bullish_engulfing") {
        return String::from_str("Bullish Engulfing (strong bullish)");
    }
    if ind.has_pattern("bearish_engulfing") {
        return String::from_str("Bearish Engulfing (strong bearish)");
    }
    if ind.has_pattern("hammer") {
        return String::from_str("Hammer (bullish reversal)");
    }
    if ind.has_pattern("shooting_star") {
        return String::from_str("Shooting Star (bearish reversal)");
    }
    if ind.has_pattern("three_white_soldiers") {
        return String::from_str("Three White Soldiers (strong bullish)");
    }
    if ind.has_pattern("three_black_crows") {
        return String::from_str("Three Black Crows (strong bearish)");
    }
    if ind.has_pattern("doji") {
        return String::from_str("Doji (indecision)");
    }
    if ind.has_pattern("spinning_top") {
        return String::from_str("Spinning Top (indecision)");
    }
    if ind.has_pattern("inside_bar") {
        return String::from_str("Inside Bar (compression — breakout pending)");
    }
    if ind.has_pattern("narrowing_range") {
        return String::from_str("Narrowing Range (compression — breakout imminent)");
    }
    String::from_str("No significant pattern")
}

pub open spec fn chart_label(ind: Indicators) -> Seq<char> {
    if ind.has("double_top"@) {
        "Double Top (bearish reversal)"@
    } else if ind.has("double_bottom"@) {
        "Double Bottom (bullish reversal)"@
    } else if ind.has("resistance_breakout"@) {
        "Resistance Breakout (bullish)"@
    } else if ind.has("support_breakdown"@) {
        "Support Breakdown (bearish)"@
    } else if ind.has("uptrend_structure"@) {
        "Uptrend Structure (higher highs + higher lows)"@
    } else if ind.has("downtrend_structure"@) {
        "Downtrend Structure (lower highs + lower lows)"@
    } else if ind.has("expanding_range"@) {
        "Expanding Range (volatility explosion)"@
    } else {
        "No clear chart pattern"@
    }
}

/// The strongest chart pattern present, by a fixed priority.
pub fn active_chart_pattern(ind: &Indicators) -> (r: String)
    requires
        ind.wf(),
    ensures
        r@ == chart_label(*ind),
{
    if ind.has_pattern("double_top") {
        return String::from_str("Double Top (bearish reversal)");
    }
    if ind.has_pattern("double_bottom") {
        return String::from_str("Double Bottom (bullish reversal)");
    }
    if ind.has_pattern("resistance_breakout") {
        return String::from_str("Resistance Breakout (bullish)");
    }
    if ind.has_pattern("support_breakdown") {
        return String::from_str("Support Breakdown (bearish)");
    }
    if ind.has_pattern("uptrend_structure") {
        return String::from_str("Uptrend Structure (higher highs + higher lows)");
    }
    if ind.has_pattern("downtrend_structure") {
        return String::from_str("Downtrend Structure (lower highs + lower lows)");
    }
    if ind.has_pattern("expanding_range") {
        return String::from_str("Expanding Range (volatility explosion)");
    }
    String::from_str("No clear chart pattern")
}

pub open spec fn market_state_spec(ind: Indicators) -> Seq<char> {
    let above50 = dv_lt(ind.ema_or_price(50), ind.price@);
    let above200 = dv_lt(ind.ema_or_price(200), ind.price@);
    let rsi = ind.rsi14();
    let strong = dv_lt(int_dv(25), ind.adx@);
    if dv_lt(ind.bb_width_pct@, int_dv(20)) {
        "squeeze"@
    } else if dv_lt(rsi, int_dv(30)) && !above50 && ind.rsi_divergence@ == "bullish"@ {
        "reversing_up"@
    } else if dv_lt(int_dv(70), rsi) && above50 && ind.rsi_divergence@ == "bearish"@ {
        "reversing_down"@
    } else if above50 && above200 && strong {
        "trending_up"@
    } else if !above50 && !above200 && strong {
        "trending_down"@
    } else if !strong {
        "ranging"@
    } else {
        "mixed"@
    }
}

/// Classifies the market: squeeze, reversing up/down, trending up/down,
/// ranging or mixed.
pub fn determine_market_state(ind: &Indicators) -> (r: String)
    requires
        ind.wf(),
    ensures
        r@ == market_state_spec(*ind),
{
    let above_ema50 = ind.price.gt(&ind.ema_or(50));
    let above_ema200 = ind.price.gt(&ind.ema_or(200));
    let rsi = ind.rsi_14();
    let strong = ind.adx.gt(&Dec::from_i64(25));
    if ind.bb_width_pct.lt(&Dec::from_i64(20)) {
        return String::from_str("squeeze");
    }
    if rsi.lt(&Dec::from_i64(30)) && !above_ema50 && str_eq(ind.rsi_divergence.as_str(), "bullish") {
        return String::from_str("reversing_up");
    }
    if rsi.gt(&Dec::from_i64(70)) && above_ema50 && str_eq(ind.rsi_divergence.as_str(), "bearish") {
        return String::from_str("reversing_down");
    }
    if above_ema50 && above_ema200 && strong {
        return String::from_str("trending_up");
    }
    if !above_ema50 && !above_ema200 && strong {
        return String::from_str("trending_down");
    }
    if !strong {
        return String::from_str("ranging");
    }
    String::from_str("mixed")
}

pub open spec fn meaning_spec(name: Seq<char>) -> Seq<char> {
    if name == "hammer"@ {
        "Small body at top, long lower wick. Buyers rejected lower prices."@
    } else if name == "bullish_engulfing"@ {
        "Large bullish candle engulfs the previous bearish candle."@
    } else if name == "bearish_engulfing"@ {
        "Large bearish candle engulfs the previous bullish candle."@
    } else if name == "bullish_harami"@ {
        "Small bullish candle inside previous large bearish candle."@
    } else if name == "bearish_harami"@ {
        "Small bearish candle inside previous large bullish candle."@
    } else if name == "doji"@ {
        "Open and close are nearly equal. Market is undecided."@
    } else if name == "dragonfly_doji"@ {
        "Doji with long lower wick. Buyers rejected low prices strongly."@
    } else if name == "gravestone_doji"@ {
        "Doji with long upper wick. Sellers rejected high prices strongly."@
    } else if name == "morning_star"@ {
        "Three-candle bottom reversal: bearish, small body, bullish."@
    } else if name == "evening_star"@ {
        "Three-candle top reversal: bullish, small body, bearish."@
    } else if name == "three_white_soldiers"@ {
        "Three consecutive bullish candles with rising closes."@
    } else if name == "three_black_crows"@ {
        "Three consecutive bearish candles with falling closes."@
    } else if name == "piercing_line"@ {
        "Bullish candle opens below prior low, closes above prior midpoint."@
    } else if name == "dark_cloud_cover"@ {
        "Bearish candle opens above prior high, closes below prior midpoint."@
    } else if name == "shooting_star"@ {
        "Small body, long upper wick, at top of uptrend."@
    } else if name == "marubozu"@ {
        "No wicks. Full body. Strong conviction."@
    } else if name == "spinning_top"@ {
        "Small body with long wicks both sides. High indecision."@
    } else if name == "long_lower_shadow"@ {
        "Lower wick is 2/3+ of range. Buyers rejected lows."@
    } else if name == "long_upper_shadow"@ {
        "Upper wick is 2/3+ of range. Sellers rejected highs."@
    } else if name == "tweezer_bottom"@ {
        "Two candles with matching lows."@
    } else if name == "tweezer_top"@ {
        "Two candles with matching highs."@
    } else if name == "hanging_man"@ {
        "Same shape as hammer but in an uptrend."@
    } else if name == "inverted_hammer"@ {
        "Small body, long upper wick at bottom."@
    } else if name == "bullish_candle"@ {
        "Close is above open. The candle is green/bullish."@
    } else if name == "bearish_candle"@ {
        "Close is below open. The candle is red/bearish."@
    } else {
        "Pattern detected."@
    }
}

/// A one-line explanation of a candlestick pattern name.
pub fn pattern_meaning(name: &str) -> (r: &'static str)
    ensures
        r@ == meaning_spec(name@),
{
    if str_eq(name, "hammer") {
        return "Small body at top, long lower wick. Buyers rejected lower prices.";
    }
    if str_eq(name, "bullish_engulfing") {
        return "Large bullish candle engulfs the previous bearish candle.";
    }
    if str_eq(name, "bearish_engulfing") {
        return "Large bearish candle engulfs the previous bullish candle.";
    }
    if str_eq(name, "bullish_harami") {
        return "Small bullish candle inside previous large bearish candle.";
    }
    if str_eq(name, "bearish_harami") {
        return "Small bearish candle inside previous large bullish candle.";
    }
    if str_eq(name, "doji") {
        return "Open and close are nearly equal. Market is undecided.";
    }
    if str_eq(name, "dragonfly_doji") {
        return "Doji with long lower wick. Buyers rejected low prices strongly.";
    }
    if str_eq(name, "gravestone_doji") {
        return "Doji with long upper wick. Sellers rejected high prices strongly.";
    }
    if str_eq(name, "morning_star") {
        return "Three-candle bottom reversal: bearish, small body, bullish.";
    }
    if str_eq(name, "evening_star") {
        return "Three-candle top reversal: bullish, small body, bearish.";
    }
    if str_eq(name, "three_white_soldiers") {
        return "Three consecutive bullish candles with rising closes.";
    }
    if str_eq(name, "three_black_crows") {
        return "Three consecutive bearish candles with falling closes.";
    }
    if str_eq(name, "piercing_line") {
        return "Bullish candle opens below prior low, closes above prior midpoint.";
    }
    if str_eq(name, "dark_cloud_cover") {
        return "Bearish candle opens above prior high, closes below prior midpoint.";
    }
    if str_eq(name, "shooting_star") {
        return "Small body, long upper wick, at top of uptrend.";
    }
    if str_eq(name, "marubozu") {
        return "No wicks. Full body. Strong conviction.";
    }
    if str_eq(name, "spinning_top") {
        return "Small body with long wicks both sides. High indecision.";
    }
    if str_eq(name, "long_lower_shadow") {
        return "Lower wick is 2/3+ of range. Buyers rejected lows.";
    }
    if str_eq(name, "long_upper_shadow") {
        return "Upper wick is 2/3+ of range. Sellers rejected highs.";
    }
    if str_eq(name, "tweezer_bottom") {
        return "Two candles with matching lows.";
    }
    if str_eq(name, "tweezer_top") {
        return "Two candles with matching highs.";
    }
    if str_eq(name, "hanging_man") {
        return "Same shape as hammer but in an uptrend.";
    }
    if str_eq(name, "inverted_hammer") {
        return "Small body, long upper wick at bottom.";
    }
    if str_eq(name, "bullish_candle") {
        return "Close is above open. The candle is green/bullish.";
    }
    if str_eq(name, "bearish_candle") {
        return "Close is below open. The candle is red/bearish.";
    }
    "Pattern detected."
}

/// Direction (+1 bullish, -1 bearish, 0 none) and weight of a pattern.
pub open spec fn sentiment_spec(name: Seq<char>) -> (int, DecV) {
    if name == "hammer"@ {
        (1, scaled_dv(2, 0))
    } else if name == "bullish_engulfing"@ {
        (1, scaled_dv(3, 0))
    } else if name == "bullish_harami"@ {
        (1, scaled_dv(2, 0))
    } else if name == "piercing_line"@ {
        (1, scaled_dv(2, 0))
    } else if name == "morning_star"@ {
        (1, scaled_dv(3, 0))
    } else if name == "three_white_soldiers"@ {
        (1, scaled_dv(3, 0))
    } else if name == "dragonfly_doji"@ {
        (1, scaled_dv(2, 0))
    } else if name == "long_lower_shadow"@ {
        (1, scaled_dv(1, 0))
    } else if name == "tweezer_bottom"@ {
        (1, scaled_dv(1, 0))
    } else if name == "inverted_hammer"@ {
        (1, scaled_dv(1, 0))
    } else if name == "shooting_star"@ {
        (-1, scaled_dv(2, 0))
    } else if name == "bearish_engulfing"@ {
        (-1, scaled_dv(3, 0))
    } else if name == "bearish_harami"@ {
        (-1, scaled_dv(2, 0))
    } else if name == "dark_cloud_cover"@ {
        (-1, scaled_dv(2, 0))
    } else if name == "evening_star"@ {
        (-1, scaled_dv(3, 0))
    } else if name == "three_black_crows"@ {
        (-1, scaled_dv(3, 0))
    } else if name == "gravestone_doji"@ {
        (-1, scaled_dv(2, 0))
    } else if name == "long_upper_shadow"@ {
        (-1, scaled_dv(1, 0))
    } else if name == "tweezer_top"@ {
        (-1, scaled_dv(1, 0))
    } else if name == "hanging_man"@ {
        (-1, scaled_dv(1, 0))
    } else if name == "bullish_candle"@ {
        (1, scaled_dv(5, 1))
    } else if name == "bearish_candle"@ {
        (-1, scaled_dv(5, 1))
    } else {
        (0, int_dv(0))
    }
}

/// Direction (+1 bullish, -1 bearish, 0 none) and evidence weight of a
/// candlestick pattern.
pub fn pattern_sentiment(name: &str) -> (r: (i32, Dec))
    ensures
        r.0 as int == sentiment_spec(name@).0,
        r.1@ == sentiment_spec(name@).1,
        r.1.wf(),
{
    if str_eq(name, "hammer") {
        return (1, Dec::new(2, 0));
    }
    if str_eq(name, "bullish_engulfing") {
        return (1, Dec::new(3, 0));
    }
    if str_eq(name, "bullish_harami") {
        return (1, Dec::new(2, 0));
    }
    if str_eq(name, "piercing_line") {
        return (1, Dec::new(2, 0));
    }
    if str_eq(name, "morning_star") {
        return (1, Dec::new(3, 0));
    }
    if str_eq(name, "three_white_soldiers") {
        return (1, Dec::new(3, 0));
    }
    if str_eq(name, "dragonfly_doji") {
        return (1, Dec::new(2, 0));
    }
    if str_eq(name, "long_lower_shadow") {
        return (1, Dec::new(1, 0));
    }
    if str_eq(name, "tweezer_bottom") {
        return (1, Dec::new(1, 0));
    }
    if str_eq(name, "inverted_hammer") {
        return (1, Dec::new(1, 0));
    }
    if str_eq(name, "shooting_star") {
        return (-1, Dec::new(2, 0));
    }
    if str_eq(name, "bearish_engulfing") {
        return (-1, Dec::new(3, 0));
    }
    if str_eq(name, "bearish_harami") {
        return (-1, Dec::new(2, 0));
    }
    if str_eq(name, "dark_cloud_cover") {
        return (-1, Dec::new(2, 0));
    }
    if str_eq(name, "evening_star") {
        return (-1, Dec::new(3, 0));
    }
    if str_eq(name, "three_black_crows") {
        return (-1, Dec::new(3, 0));
    }
    if str_eq(name, "gravestone_doji") {
        return (-1, Dec::new(2, 0));
    }
    if str_eq(name, "long_upper_shadow") {
        return (-1, Dec::new(1, 0));
    }
    if str_eq(name, "tweezer_top") {
        return (-1, Dec::new(1, 0));
    }
    if str_eq(name, "hanging_man") {
        return (-1, Dec::new(1, 0));
    }
    if str_eq(name, "bullish_candle") {
        return (1, Dec::new(5, 1));
    }
    if str_eq(name, "bearish_candle") {
        return (-1, Dec::new(5, 1));
    }
    (0, Dec::zero())
}

pub open spec fn push_if(s: Seq<Seq<char>>, c: bool, x: Seq<char>) -> Seq<Seq<char>> {
    if c {
        s.push(x)
    } else {
        s
    }
}

/// EMA(50) above EMA(200) with price above EMA(50).
pub open spec fn ema_structure_bull(ind: Indicators) -> bool {
    match (series_get(ind.ema@, 50), series_get(ind.ema@, 200)) {
        (Some(e50), Some(e200)) => dv_lt(e200, e50) && dv_lt(e50, ind.price@),
        _ => false,
    }
}

/// EMA(50) below EMA(200) with price below EMA(50) (and not the bullish case).
pub open spec fn ema_structure_bear(ind: Indicators) -> bool {
    match (series_get(ind.ema@, 50), series_get(ind.ema@, 200)) {
        (Some(e50), Some(e200)) => !(dv_lt(e200, e50) && dv_lt(e50, ind.price@)) && dv_lt(e50, e200)
            && dv_lt(ind.price@, e50),
        _ => false,
    }
}

pub open spec fn bull_signals(ind: Indicators) -> Seq<Seq<char>> {
    let s: Seq<Seq<char>> = Seq::empty();
    let s = push_if(s, ind.has("hammer"@), "hammer"@);
    let s = push_if(s, ind.has("bullish_engulfing"@), "bullish engulfing"@);
    let s = push_if(s, ind.has("morning_star"@), "morning star"@);
    let s = push_if(s, ind.has("three_white_soldiers"@), "three white soldiers"@);
    let s = push_if(s, ind.has("double_bottom"@), "double bottom"@);
    let s = push_if(s, ind.has("resistance_breakout"@), "resistance breakout"@);
    let s = push_if(s, dv_lt(ind.rsi14(), int_dv(30)), "RSI oversold"@);
    push_if(s, ema_structure_bull(ind), "EMA structure bullish"@)
}
pub open spec fn bear_signals(ind: Indicators) -> Seq<Seq<char>> {
    let s: Seq<Seq<char>> = Seq::empty();
    let s = push_if(s, ind.has("shooting_star"@), "shooting star"@);
    let s = push_if(s, ind.has("bearish_engulfing"@), "bearish engulfing"@);
    let s = push_if(s, ind.has("evening_star"@), "evening star"@);
    let s = push_if(s, ind.has("three_black_crows"@), "three black crows"@);
    let s = push_if(s, ind.has("double_top"@), "double top"@);
    let s = push_if(s, ind.has("support_breakdown"@), "support breakdown"@);
    let s = push_if(s, !dv_lt(ind.rsi14(), int_dv(30)) && dv_lt(int_dv(70), ind.rsi14()), "RSI overbought"@);
    push_if(s, ema_structure_bear(ind), "EMA structure bearish"@)
}
pub open spec fn next_candle_spec(ind: Indicators) -> (Seq<char>, Seq<char>) {
    let b = bull_signals(ind);
    let e = bear_signals(ind);
    if b.len() > e.len() {
        (
            "bullish"@,
            "Next candle: BULLISH. "@ + nat_text(b.len()) + " bullish vs "@ + nat_text(e.len())
                + " bearish signals: "@ + join_spec(b, ", "@) + "."@,
        )
    } else if e.len() > b.len() {
        (
            "bearish"@,
            "Next candle: BEARISH. "@ + nat_text(e.len()) + " bearish vs "@ + nat_text(b.len())
                + " bullish signals: "@ + join_spec(e, ", "@) + "."@,
        )
    } else if b.len() == 0 {
        ("neutral"@, "Next candle: NEUTRAL — no strong signal. Wait for a setup."@)
    } else {
        (
            "neutral"@,
            "Next candle: NEUTRAL (conflicted). "@ + nat_text(b.len()) + " bullish vs "@ + nat_text(
                e.len(),
            ) + " bearish."@,
        )
    }
}

fn push_named(v: &mut Vec<String>, c: bool, x: &str)
    ensures
        texts(final(v)@) == push_if(texts(old(v)@), c, x@),
{
    if c {
        let ghost before = texts(v@);
        v.push(String::from_str(x));
        assert(texts(v@) =~= before.push(x@));
    }
}

fn ema_structure(ind: &Indicators) -> (r: (bool, bool))
    requires
        ind.wf(),
    ensures
        r.0 == ema_structure_bull(*ind),
        r.1 == ema_structure_bear(*ind),
{
    let e50 = Indicators::lookup(&ind.ema, 50);
    let e200 = Indicators::lookup(&ind.ema, 200);
    match (e50, e200) {
        (Some(a), Some(b)) => {
            let up = a.gt(&b) && ind.price.gt(&a);
            (up, !up && a.lt(&b) && ind.price.lt(&a))
        },
        _ => (false, false),
    }
}

fn bull_signal_list(ind: &Indicators) -> (r: Vec<String>)
    requires
        ind.wf(),
    ensures
        texts(r@) == bull_signals(*ind),
{
    let mut v: Vec<String> = Vec::new();
    assert(texts(v@) =~= Seq::<Seq<char>>::empty());
    push_named(&mut v, ind.has_pattern("hammer"), "hammer");
    push_named(&mut v, ind.has_pattern("bullish_engulfing"), "bullish engulfing");
    push_named(&mut v, ind.has_pattern("morning_star"), "morning star");
    push_named(&mut v, ind.has_pattern("three_white_soldiers"), "three white soldiers");
    push_named(&mut v, ind.has_pattern("double_bottom"), "double bottom");
    push_named(&mut v, ind.has_pattern("resistance_breakout"), "resistance breakout");
    let rsi = ind.rsi_14();
    push_named(&mut v, rsi.lt(&Dec::from_i64(30)), "RSI oversold");
    let (eb, _) = ema_structure(ind);
    push_named(&mut v, eb, "EMA structure bullish");
    v
}

fn bear_signal_list(ind: &Indicators) -> (r: Vec<String>)
    requires
        ind.wf(),
    ensures
        texts(r@) == bear_signals(*ind),
{
    let mut v: Vec<String> = Vec::new();
    assert(texts(v@) =~= Seq::<Seq<char>>::empty());
    push_named(&mut v, ind.has_pattern("shooting_star"), "shooting star");
    push_named(&mut v, ind.has_pattern("bearish_engulfing"), "bearish engulfing");
    push_named(&mut v, ind.has_pattern("evening_star"), "evening star");
    push_named(&mut v, ind.has_pattern("three_black_crows"), "three black crows");
    push_named(&mut v, ind.has_pattern("double_top"), "double top");
    push_named(&mut v, ind.has_pattern("support_breakdown"), "support breakdown");
    let rsi = ind.rsi_14();
    push_named(&mut v, !rsi.lt(&Dec::from_i64(30)) && rsi.gt(&Dec::from_i64(70)), "RSI overbought");
    let (_, es) = ema_structure(ind);
    push_named(&mut v, es, "EMA structure bearish");
    v
}

/// Predicts the next candle's direction by counting bullish and bearish
/// signals (patterns, RSI extremes, EMA structure).
pub fn predict_next_candle(ind: &Indicators, direction: &str) -> (r: (String, String))
    requires
        ind.wf(),
    ensures
        r.0@ == next_candle_spec(*ind).0,
        r.1@ == next_candle_spec(*ind).1,
{
    let bull = bull_signal_list(ind);
    let bear = bear_signal_list(ind);
    let nb = bull.len();
    let ne = bear.len();
    proof {
        assert(texts(bull@).len() == nb);
        assert(texts(bear@).len() == ne);
    }
    if nb > ne {
        let mut s = String::from_str("Next candle: BULLISH. ");
        s.append(u64_text(nb as u64).as_str());
        s.append(" bullish vs ");
        s.append(u64_text(ne as u64).as_str());
        s.append(" bearish signals: ");
        s.append(join(&bull, ", ").as_str());
        s.append(".");
        (String::from_str("bullish"), s)
    } else if ne > nb {
        let mut s = String::from_str("Next candle: BEARISH. ");
        s.append(u64_text(ne as u64).as_str());
        s.append(" bearish vs ");
        s.append(u64_text(nb as u64).as_str());
        s.append(" bullish signals: ");
        s.append(join(&bear, ", ").as_str());
        s.append(".");
        (String::from_str("bearish"), s)
    } else if nb == 0 {
        (String::from_str("neutral"), String::from_str("Next candle: NEUTRAL — no strong signal. Wait for a setup."))
    } else {
        let mut s = String::from_str("Next candle: NEUTRAL (conflicted). ");
        s.append(u64_text(nb as u64).as_str());
        s.append(" bullish vs ");
        s.append(u64_text(ne as u64).as_str());
        s.append(" bearish.");
        (String::from_str("neutral"), s)
    }
}

} // verus!
