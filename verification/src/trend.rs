//! Trend readings: price against EMA200 and EMA50, the structure of the last
//! five candles, and the strong-trend bonus.
use crate::decimal::{decimal_text, dv_lt, int_dv, round_dp_spec, Dec, DecV};
use crate::domain::{candles_wf, Candle};
use crate::evidence::{b2n, ev, note, opt_tally, with_dirs, with_ev, Context, Lean, Tally, TallyV};
use crate::indicators::{series_get, Indicators};
use crate::oscillators::ema_trend_bull;
use crate::text::{nat_text, u64_text};
use vstd::prelude::*;

verus! {

/// Trend points to `c` unless an earlier tool already set it.
pub open spec fn trend_if_neutral(t: TallyV, c: Lean) -> TallyV {
    if t.trend == Lean::Neutral {
        with_dirs(t, c, t.momentum, t.pattern)
    } else {
        t
    }
}

pub open spec fn ema200_finding(price: DecV, e: DecV) -> Seq<char> {
    let above = dv_lt(e, price);
    "Price ("@ + decimal_text(price) + (if above {
        ") ABOVE EMA200 ("@
    } else {
        ") BELOW EMA200 ("@
    }) + decimal_text(e) + (if above {
        "). Macro trend is bullish — bias is BUY."@
    } else {
        "). Macro trend is bearish — bias is SELL."@
    })
}

/// EMA200 sets the macro bias; its weight is dropped (recorded as zero) when
/// a reversal candlestick of the other side printed.
pub open spec fn ema200_stage(t: TallyV, ind: Indicators, ctx: Context) -> Option<TallyV> {
    match series_get(ind.ema@, 200) {
        None => Some(t),
        Some(e) => {
            let c = if dv_lt(e, ind.price@) {
                Lean::Buy
            } else {
                Lean::Sell
            };
            let f = ema200_finding(ind.price@, e);
            let suppressed = (c == Lean::Sell && ctx.bull_rev) || (c == Lean::Buy && ctx.bear_rev);
            if suppressed {
                Some(with_ev(t, ev("ema"@, f, c, int_dv(0))))
            } else {
                note(with_dirs(t, c, t.momentum, t.pattern), "ema"@, f, c, int_dv(2))
            }
        },
    }
}

/// Records price against EMA200.
pub fn ema200_fact(t: Tally, ind: &Indicators, ctx: &Context) -> (r: Option<Tally>)
    requires
        t.wf(),
        ind.wf(),
        ctx.wf(),
    ensures
        opt_tally(r) == ema200_stage(t@, *ind, *ctx),
        r matches Some(x) ==> x.wf(),
{
    let e = match Indicators::lookup(&ind.ema, 200) {
        Some(e) => e,
        None => {
            return Some(t);
        },
    };
    let above = e.lt(&ind.price);
    let c = if above {
        Lean::Buy
    } else {
        Lean::Sell
    };
    let mut f = String::from_str("Price (");
    f.append(ind.price.to_text().as_str());
    if above {
        f.append(") ABOVE EMA200 (");
    } else {
        f.append(") BELOW EMA200 (");
    }
    f.append(e.to_text().as_str());
    if above {
        f.append("). Macro trend is bullish — bias is BUY.");
    } else {
        f.append("). Macro trend is bearish — bias is SELL.");
    }
    let suppressed = (c == Lean::Sell && ctx.bull_rev) || (c == Lean::Buy && ctx.bear_rev);
    let mut t = t;
    if suppressed {
        t.record("ema", f, c, Dec::zero());
        Some(t)
    } else {
        t.trend = c;
        t.note("ema", f, c, Dec::from_i64(2))
    }
}

pub open spec fn ema50_finding(price: DecV, e: DecV) -> Seq<char> {
    let above = dv_lt(e, price);
    "Price ("@ + decimal_text(price) + (if above {
        ") ABOVE EMA50 ("@
    } else {
        ") BELOW EMA50 ("@
    }) + decimal_text(e) + (if above {
        "). Short-term trend is up."@
    } else {
        "). Short-term trend is down."@
    })
}

pub open spec fn ema50_stage(t: TallyV, ind: Indicators) -> Option<TallyV> {
    match series_get(ind.ema@, 50) {
        None => Some(t),
        Some(e) => {
            let c = if dv_lt(e, ind.price@) {
                Lean::Buy
            } else {
                Lean::Sell
            };
            note(trend_if_neutral(t, c), "ema"@, ema50_finding(ind.price@, e), c, int_dv(2))
        },
    }
}

/// Records price against EMA50.
pub fn ema50_fact(t: Tally, ind: &Indicators) -> (r: Option<Tally>)
    requires
        t.wf(),
        ind.wf(),
    ensures
        opt_tally(r) == ema50_stage(t@, *ind),
        r matches Some(x) ==> x.wf(),
{
    let e = match Indicators::lookup(&ind.ema, 50) {
        Some(e) => e,
        None => {
            return Some(t);
        },
    };
    let above = e.lt(&ind.price);
    let c = if above {
        Lean::Buy
    } else {
        Lean::Sell
    };
    let mut f = String::from_str("Price (");
    f.append(ind.price.to_text().as_str());
    if above {
        f.append(") ABOVE EMA50 (");
    } else {
        f.append(") BELOW EMA50 (");
    }
    f.append(e.to_text().as_str());
    if above {
        f.append("). Short-term trend is up.");
    } else {
        f.append("). Short-term trend is down.");
    }
    let mut t = t;
    if t.trend == Lean::Neutral {
        t.trend = c;
    }
    t.note("ema", f, c, Dec::from_i64(2))
}

// ---------------------------------------------------------------------------
// Price structure.
// ---------------------------------------------------------------------------
/// The last `n` candles (all of them when there are fewer).
pub open spec fn last_n(s: Seq<Candle>, n: nat) -> Seq<Candle> {
    if s.len() <= n {
        s
    } else {
        s.subrange(s.len() - n, s.len() as int)
    }
}

/// Neighbouring pairs whose second high is above the first.
pub open spec fn higher_highs(s: Seq<Candle>) -> nat
    decreases s.len(),
{
    if s.len() < 2 {
        0
    } else {
        higher_highs(s.drop_last()) + b2n(dv_lt(s[s.len() - 2].high@, s[s.len() - 1].high@))
    }
}

/// Neighbouring pairs whose second low is below the first.
pub open spec fn lower_lows(s: Seq<Candle>) -> nat
    decreases s.len(),
{
    if s.len() < 2 {
        0
    } else {
        lower_lows(s.drop_last()) + b2n(dv_lt(s[s.len() - 1].low@, s[s.len() - 2].low@))
    }
}

pub open spec fn structure_stage(t: TallyV, candles: Seq<Candle>) -> Option<TallyV> {
    let w = last_n(candles, 5);
    let hh = higher_highs(w);
    let ll = lower_lows(w);
    if hh > ll {
        note(
            trend_if_neutral(t, Lean::Buy),
            "price_action"@,
            "Price structure: "@ + nat_text(hh) + " higher highs vs "@ + nat_text(ll)
                + " lower lows. Uptrend structure."@,
            Lean::Buy,
            int_dv(2),
        )
    } else if ll > hh {
        note(
            trend_if_neutral(t, Lean::Sell),
            "price_action"@,
            "Price structure: "@ + nat_text(ll) + " lower lows vs "@ + nat_text(hh)
                + " higher highs. Downtrend structure."@,
            Lean::Sell,
            int_dv(2),
        )
    } else {
        Some(t)
    }
}

/// Counts higher highs and lower lows over the last five candles.
fn structure_counts(candles: &Vec<Candle>) -> (r: (u64, u64))
    requires
        candles_wf(candles@),
    ensures
        r.0 as nat == higher_highs(last_n(candles@, 5)),
        r.1 as nat == lower_lows(last_n(candles@, 5)),
{
    let n = candles.len();
    let start: usize = if n <= 5 {
        0
    } else {
        n - 5
    };
    let ghost s = candles@;
    let mut hh: u64 = 0;
    let mut ll: u64 = 0;
    if n == 0 {
        return (0, 0);
    }
    let mut i: usize = start + 1;
    assert(s.subrange(start as int, start + 1).len() == 1);
    while i < n
        invariant
            s == candles@,
            candles_wf(s),
            n == s.len(),
            n > 0,
            start < n,
            start == (if n <= 5 { 0 } else { n - 5 }),
            start + 1 <= i <= n,
            hh <= i,
            ll <= i,
            hh as nat == higher_highs(s.subrange(start as int, i as int)),
            ll as nat == lower_lows(s.subrange(start as int, i as int)),
        decreases n - i,
    {
        let ghost w = s.subrange(start as int, i + 1);
        assert(w.drop_last() =~= s.subrange(start as int, i as int));
        assert(w[w.len() - 2] == s[i - 1]);
        assert(w[w.len() - 1] == s[i as int]);
        assert(s[i - 1].wf() && s[i as int].wf());
        if candles[i - 1].high.lt(&candles[i].high) {
            hh = hh + 1;
        }
        if candles[i].low.lt(&candles[i - 1].low) {
            ll = ll + 1;
        }
        i = i + 1;
    }
    assert(s.subrange(start as int, n as int) =~= last_n(s, 5));
    (hh, ll)
}

/// Records the higher-high / lower-low structure of the last five candles.
pub fn structure_fact(t: Tally, candles: &Vec<Candle>) -> (r: Option<Tally>)
    requires
        t.wf(),
        candles_wf(candles@),
    ensures
        opt_tally(r) == structure_stage(t@, candles@),
        r matches Some(x) ==> x.wf(),
{
    let (hh, ll) = structure_counts(candles);
    let mut t = t;
    if hh > ll {
        let mut f = String::from_str("Price structure: ");
        f.append(u64_text(hh).as_str());
        f.append(" higher highs vs ");
        f.append(u64_text(ll).as_str());
        f.append(" lower lows. Uptrend structure.");
        if t.trend == Lean::Neutral {
            t.trend = Lean::Buy;
        }
        t.note("price_action", f, Lean::Buy, Dec::from_i64(2))
    } else if ll > hh {
        let mut f = String::from_str("Price structure: ");
        f.append(u64_text(ll).as_str());
        f.append(" lower lows vs ");
        f.append(u64_text(hh).as_str());
        f.append(" higher highs. Downtrend structure.");
        if t.trend == Lean::Neutral {
            t.trend = Lean::Sell;
        }
        t.note("price_action", f, Lean::Sell, Dec::from_i64(2))
    } else {
        Some(t)
    }
}

// ---------------------------------------------------------------------------
// Strong-trend bonus.
// ---------------------------------------------------------------------------
pub open spec fn trend_mode_stage(t: TallyV, ind: Indicators) -> Option<TallyV> {
    if dv_lt(int_dv(25), ind.adx@) {
        let c = if ema_trend_bull(ind) {
            Lean::Buy
        } else {
            Lean::Sell
        };
        let f = "STRONG TREND MODE (ADX "@ + decimal_text(round_dp_spec(ind.adx@, 1)) + "): trend is "@ + (if c
            == Lean::Buy {
            "BUY"@
        } else {
            "SELL"@
        }) + ". Continuation favored — trend direction gets +"@ + decimal_text(int_dv(2)) + " weight."@;
        note(t, "trend_mode"@, f, c, int_dv(2))
    } else {
        Some(t)
    }
}

/// In a strong trend (ADX above 25) the EMA200 side gets two more points.
pub fn trend_mode_fact(t: Tally, ind: &Indicators) -> (r: Option<Tally>)
    requires
        t.wf(),
        ind.wf(),
    ensures
        opt_tally(r) == trend_mode_stage(t@, *ind),
        r matches Some(x) ==> x.wf(),
{
    if !ind.adx.gt(&Dec::from_i64(25)) {
        return Some(t);
    }
    let bull = ind.ema_or(200).lt(&ind.price);
    let c = if bull {
        Lean::Buy
    } else {
        Lean::Sell
    };
    let w = Dec::from_i64(2);
    let mut f = String::from_str("STRONG TREND MODE (ADX ");
    f.append(ind.adx.round_dp(1).to_text().as_str());
    f.append("): trend is ");
    if bull {
        f.append("BUY");
    } else {
        f.append("SELL");
    }
    f.append(". Continuation favored — trend direction gets +");
    f.append(w.to_text().as_str());
    f.append(" weight.");
    t.note("trend_mode", f, c, w)
}

} // verus!
