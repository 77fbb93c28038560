//! Upper-timeframe context: which higher timeframes are read for a chart
//! timeframe, and what each one says about the trend.
use crate::candles::direction_of;
use crate::decimal::{decimal_text, dv_lt, int_dv, Dec, DecV};
use crate::domain::Candle;
use crate::indicators::{first_active, series_or, Indicators};
use crate::text::string_eq;
use vstd::prelude::*;

verus! {

/// Reading of one higher timeframe.
#[derive(Clone, Debug)]
pub struct UpperTFContext {
    pub label: String,
    pub trend: String,
    pub last_candle_dir: String,
    pub rsi: Dec,
    pub adx: Dec,
    pub pattern: String,
    pub summary: String,
}

/// (minutes, label) of the higher timeframes read for a base timeframe.
pub open spec fn upper_list(base: u32) -> Seq<(u32, Seq<char>)> {
    if base == 1 || base == 5 {
        seq![(15u32, "15min"@), (60u32, "1H"@), (240u32, "4H"@), (1440u32, "Daily"@)]
    } else if base == 10 || base == 15 {
        seq![(60u32, "1H"@), (240u32, "4H"@), (1440u32, "Daily"@)]
    } else {
        seq![(240u32, "4H"@), (1440u32, "Daily"@)]
    }
}

/// The higher timeframes read for a base timeframe (in minutes).
pub fn upper_timeframes(base: u32) -> (r: Vec<(u32, String)>)
    ensures
        r@.len() == upper_list(base).len(),
        forall|i: int|
            0 <= i < r@.len() ==> (#[trigger] r@[i]).0 == upper_list(base)[i].0 && r@[i].1@ == upper_list(
                base,
            )[i].1,
{
    let mut v: Vec<(u32, String)> = Vec::new();
    if base == 1 || base == 5 {
        v.push((15, String::from_str("15min")));
        v.push((60, String::from_str("1H")));
    } else if base == 10 || base == 15 {
        v.push((60, String::from_str("1H")));
    }
    v.push((240, String::from_str("4H")));
    v.push((1440, String::from_str("Daily")));
    v
}

/// How many base candles make one candle of `tf` minutes; `None` when that is
/// fewer than two (the timeframe is skipped).
pub fn upper_factor(tf: u32, base: u32) -> (r: Option<usize>)
    requires
        base > 0,
    ensures
        r matches Some(f) ==> f as int == tf / base && f >= 2,
        r is None <==> tf / base < 2,
{
    let f = tf / base;
    if f < 2 {
        None
    } else {
        Some(f as usize)
    }
}

/// The base price is above the timeframe's EMA50 (the price itself when it
/// has none).
pub open spec fn upper_bull(ui: Indicators, price: DecV) -> bool {
    dv_lt(series_or(ui.ema@, 50, price), price)
}

pub open spec fn upper_summary(label: Seq<char>, bull: bool, ui: Indicators) -> Seq<char> {
    label + " is "@ + (if bull {
        "bullish"@
    } else {
        "bearish"@
    }) + " (RSI "@ + decimal_text(ui.rsi14()) + ", ADX "@ + decimal_text(ui.adx@) + ") — "@ + (if bull {
        "supports BUY"@
    } else {
        "supports SELL"@
    })
}

/// Reads one higher timeframe from its last aggregated candle and its
/// indicators, against the base chart's current price.
pub fn upper_context(label: &str, last: &Candle, ui: &Indicators, price: &Dec) -> (r: UpperTFContext)
    requires
        last.wf(),
        ui.wf(),
        price.wf(),
    ensures
        r.label@ == label@,
        r.trend@ == (if upper_bull(*ui, price@) {
            "bullish"@
        } else {
            "bearish"@
        }),
        r.last_candle_dir@ == direction_of(*last),
        r.rsi@ == ui.rsi14(),
        r.adx@ == ui.adx@,
        r.pattern@ == (match first_active(ui.patterns@) {
            Some(p) => p,
            None => direction_of(*last),
        }),
        r.summary@ == upper_summary(label@, upper_bull(*ui, price@), *ui),
        r.rsi.wf(),
        r.adx.wf(),
{
    let dir = if last.open.lt(&last.close) {
        "bullish"
    } else if last.close.lt(&last.open) {
        "bearish"
    } else {
        "neutral"
    };
    let rsi = ui.rsi_14();
    let adx = ui.adx;
    let pattern = match ui.first_active_pattern() {
        Some(p) => p,
        None => String::from_str(dir),
    };
    let bull = Indicators::lookup_or(&ui.ema, 50, *price).lt(price);
    let trend = if bull {
        "bullish"
    } else {
        "bearish"
    };
    let mut summary = String::from_str(label);
    summary.append(" is ");
    summary.append(trend);
    summary.append(" (RSI ");
    summary.append(rsi.to_text().as_str());
    summary.append(", ADX ");
    summary.append(adx.to_text().as_str());
    summary.append(") — ");
    if bull {
        summary.append("supports BUY");
    } else {
        summary.append("supports SELL");
    }
    UpperTFContext {
        label: String::from_str(label),
        trend: String::from_str(trend),
        last_candle_dir: String::from_str(dir),
        rsi,
        adx,
        pattern,
        summary,
    }
}

/// Timeframes whose trend reads "bullish".
pub open spec fn upper_bull_count(s: Seq<UpperTFContext>) -> nat
    decreases s.len(),
{
    if s.len() == 0 {
        0
    } else {
        upper_bull_count(s.drop_last()) + (if s.last().trend@ == "bullish"@ {
            1nat
        } else {
            0nat
        })
    }
}

/// Timeframes whose trend reads anything else.
pub open spec fn upper_bear_count(s: Seq<UpperTFContext>) -> nat
    decreases s.len(),
{
    if s.len() == 0 {
        0
    } else {
        upper_bear_count(s.drop_last()) + (if s.last().trend@ == "bullish"@ {
            0nat
        } else {
            1nat
        })
    }
}

/// Counts bullish and bearish higher timeframes.
pub fn upper_votes(s: &Vec<UpperTFContext>) -> (r: (u32, u32))
    requires
        s.len() <= u32::MAX,
    ensures
        r.0 as nat == upper_bull_count(s@),
        r.1 as nat == upper_bear_count(s@),
{
    let mut b: u32 = 0;
    let mut e: u32 = 0;
    let mut i: usize = 0;
    while i < s.len()
        invariant
            i <= s.len(),
            s.len() <= u32::MAX,
            b + e == i,
            b as nat == upper_bull_count(s@.take(i as int)),
            e as nat == upper_bear_count(s@.take(i as int)),
        decreases s.len() - i,
    {
        assert(s@.take(i + 1).drop_last() =~= s@.take(i as int));
        assert(s@.take(i + 1).last() == s@[i as int]);
        if string_eq(&s[i].trend, "bullish") {
            b = b + 1;
        } else {
            e = e + 1;
        }
        i = i + 1;
    }
    assert(s@.take(s.len() as int) =~= s@);
    (b, e)
}

} // verus!
