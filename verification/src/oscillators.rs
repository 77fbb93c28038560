//! Oscillator readings: RSI, MACD, Bollinger Bands and Stochastic.  Each is
//! trusted as a reversal signal only at a real prior swing level, and MACD
//! only when it agrees with the EMA200 trend.
use crate::decimal::{decimal_text, dv_lt, int_dv, round_dp_spec, Dec, DecV};
use crate::evidence::{note, opt_tally, with_dirs, Context, Lean, Tally, TallyV};
use crate::indicators::Indicators;
use vstd::prelude::*;

verus! {

/// Momentum points to `c` when `c` takes a side.
pub open spec fn set_momentum(t: TallyV, c: Lean) -> TallyV {
    if c == Lean::Neutral {
        t
    } else {
        with_dirs(t, t.trend, c, t.pattern)
    }
}

/// Price is above EMA200 (the price itself when EMA200 is absent).
pub open spec fn ema_trend_bull(ind: Indicators) -> bool {
    dv_lt(ind.ema_or_price(200), ind.price@)
}

// ---------------------------------------------------------------------------
// RSI.
// ---------------------------------------------------------------------------
pub open spec fn rsi_trend_text(now: DecV, earlier: DecV) -> Seq<char> {
    if dv_lt(earlier, now) {
        "rising"@
    } else if dv_lt(now, earlier) {
        "falling"@
    } else {
        "flat"@
    }
}

/// Side, weight and finding of the RSI reading; `earlier` is RSI(14) five
/// bars back.
pub open spec fn rsi_reading(ind: Indicators, ctx: Context, earlier: DecV) -> (Lean, int, Seq<char>) {
    let r = ctx.rsi@;
    let rs = "RSI = "@ + decimal_text(r);
    let rising = dv_lt(earlier, r);
    let falling = dv_lt(r, earlier);
    if dv_lt(r, int_dv(30)) && ctx.at_support {
        (
            Lean::Buy,
            3,
            rs
                + " (oversold) AND at support. Reversal probability is high — price is exhausted at a real support level."@,
        )
    } else if dv_lt(int_dv(70), r) && ctx.at_resistance {
        (
            Lean::Sell,
            3,
            rs
                + " (overbought) AND at resistance. Reversal probability is high — price is exhausted at a real resistance level."@,
        )
    } else if dv_lt(r, int_dv(30)) && !ema_trend_bull(ind) {
        (
            Lean::Neutral,
            0,
            rs + " (oversold but NOT at support, in a downtrend — oversold is normal here, not a buy)."@,
        )
    } else if dv_lt(int_dv(70), r) && ema_trend_bull(ind) {
        (
            Lean::Neutral,
            0,
            rs + " (overbought but NOT at resistance, in an uptrend — overbought is normal here, not a sell)."@,
        )
    } else if dv_lt(r, int_dv(40)) && rising && ctx.at_support {
        (Lean::Buy, 2, rs + " (rising from oversold, at support). Momentum shifting to buyers."@)
    } else if dv_lt(int_dv(60), r) && falling && ctx.at_resistance {
        (Lean::Sell, 2, rs + " (falling from overbought, at resistance). Momentum shifting to sellers."@)
    } else {
        (Lean::Neutral, 0, rs + " ("@ + rsi_trend_text(r, earlier) + "). Neutral — no extreme at a key level."@)
    }
}

/// RSI five bars back, the current RSI when it could not be read.
pub open spec fn earlier_rsi(earlier: Option<Dec>, ctx: Context) -> DecV {
    match earlier {
        Some(e) => e@,
        None => ctx.rsi@,
    }
}

pub open spec fn rsi_stage(t: TallyV, ind: Indicators, ctx: Context, earlier: DecV) -> Option<TallyV> {
    let (c, w, f) = rsi_reading(ind, ctx, earlier);
    note(set_momentum(t, c), "rsi"@, f, c, int_dv(w))
}

/// Records the RSI reading; oversold/overbought counts only at a real level.
pub fn rsi_fact(t: Tally, ind: &Indicators, ctx: &Context, rsi_earlier: Option<Dec>) -> (r: Option<Tally>)
    requires
        t.wf(),
        ind.wf(),
        ctx.wf(),
        rsi_earlier matches Some(e) ==> e.wf(),
    ensures
        opt_tally(r) == rsi_stage(t@, *ind, *ctx, earlier_rsi(rsi_earlier, *ctx)),
        r matches Some(x) ==> x.wf(),
{
    let rsi = ctx.rsi;
    let earlier = match rsi_earlier {
        Some(e) => e,
        None => rsi,
    };
    let rising = earlier.lt(&rsi);
    let falling = rsi.lt(&earlier);
    let bull = ind.ema_or(200).lt(&ind.price);
    let mut f = String::from_str("RSI = ");
    f.append(rsi.to_text().as_str());
    let (c, w): (Lean, i64) = if rsi.lt(&Dec::from_i64(30)) && ctx.at_support {
        f.append(
            " (oversold) AND at support. Reversal probability is high — price is exhausted at a real support level.",
        );
        (Lean::Buy, 3)
    } else if rsi.gt(&Dec::from_i64(70)) && ctx.at_resistance {
        f.append(
            " (overbought) AND at resistance. Reversal probability is high — price is exhausted at a real resistance level.",
        );
        (Lean::Sell, 3)
    } else if rsi.lt(&Dec::from_i64(30)) && !bull {
        f.append(" (oversold but NOT at support, in a downtrend — oversold is normal here, not a buy).");
        (Lean::Neutral, 0)
    } else if rsi.gt(&Dec::from_i64(70)) && bull {
        f.append(" (overbought but NOT at resistance, in an uptrend — overbought is normal here, not a sell).");
        (Lean::Neutral, 0)
    } else if rsi.lt(&Dec::from_i64(40)) && rising && ctx.at_support {
        f.append(" (rising from oversold, at support). Momentum shifting to buyers.");
        (Lean::Buy, 2)
    } else if rsi.gt(&Dec::from_i64(60)) && falling && ctx.at_resistance {
        f.append(" (falling from overbought, at resistance). Momentum shifting to sellers.");
        (Lean::Sell, 2)
    } else {
        f.append(" (");
        if rising {
            f.append("rising");
        } else if falling {
            f.append("falling");
        } else {
            f.append("flat");
        }
        f.append("). Neutral — no extreme at a key level.");
        (Lean::Neutral, 0)
    };
    let mut t = t;
    if c != Lean::Neutral {
        t.momentum = c;
    }
    t.note("rsi", f, c, Dec::from_i64(w))
}

// ---------------------------------------------------------------------------
// MACD.
// ---------------------------------------------------------------------------
pub open spec fn macd_reading(ind: Indicators, m: DecV) -> (Lean, int, Seq<char>) {
    let ms = "MACD = "@ + decimal_text(m);
    let bull = ema_trend_bull(ind);
    if dv_lt(int_dv(0), m) && bull {
        (Lean::Buy, 2, ms + " (positive, confirms bullish EMA trend). Momentum is bullish."@)
    } else if dv_lt(m, int_dv(0)) && !bull {
        (Lean::Sell, 2, ms + " (negative, confirms bearish EMA trend). Momentum is bearish."@)
    } else if dv_lt(int_dv(0), m) && !bull {
        (
            Lean::Neutral,
            0,
            ms
                + " (positive but EMA trend is bearish — MACD is diverging from trend, likely a dead-cat bounce. IGNORE until MACD confirms with price above EMA200)."@,
        )
    } else if dv_lt(m, int_dv(0)) && bull {
        (
            Lean::Neutral,
            0,
            ms
                + " (negative but EMA trend is bullish — likely a pullback. IGNORE until MACD confirms with price below EMA200)."@,
        )
    } else {
        (Lean::Neutral, 0, ms + " (neutral — no clear signal)."@)
    }
}

/// MACD is read only when no reversal candlestick printed (it lags).
pub open spec fn macd_stage(t: TallyV, ind: Indicators, ctx: Context) -> Option<TallyV> {
    if ctx.bull_rev || ctx.bear_rev {
        Some(t)
    } else {
        match ind.macd {
            Some(m) => {
                let (c, w, f) = macd_reading(ind, m@);
                note(set_momentum(t, c), "macd"@, f, c, int_dv(w))
            },
            None => Some(t),
        }
    }
}

/// Records the MACD reading when it applies.
pub fn macd_fact(t: Tally, ind: &Indicators, ctx: &Context) -> (r: Option<Tally>)
    requires
        t.wf(),
        ind.wf(),
        ctx.wf(),
    ensures
        opt_tally(r) == macd_stage(t@, *ind, *ctx),
        r matches Some(x) ==> x.wf(),
{
    if ctx.bull_rev || ctx.bear_rev {
        return Some(t);
    }
    let m = match ind.macd {
        Some(m) => m,
        None => {
            return Some(t);
        },
    };
    let bull = ind.ema_or(200).lt(&ind.price);
    let zero = Dec::zero();
    let mut f = String::from_str("MACD = ");
    f.append(m.to_text().as_str());
    let (c, w): (Lean, i64) = if zero.lt(&m) && bull {
        f.append(" (positive, confirms bullish EMA trend). Momentum is bullish.");
        (Lean::Buy, 2)
    } else if m.lt(&zero) && !bull {
        f.append(" (negative, confirms bearish EMA trend). Momentum is bearish.");
        (Lean::Sell, 2)
    } else if zero.lt(&m) && !bull {
        f.append(
            " (positive but EMA trend is bearish — MACD is diverging from trend, likely a dead-cat bounce. IGNORE until MACD confirms with price above EMA200).",
        );
        (Lean::Neutral, 0)
    } else if m.lt(&zero) && bull {
        f.append(
            " (negative but EMA trend is bullish — likely a pullback. IGNORE until MACD confirms with price below EMA200).",
        );
        (Lean::Neutral, 0)
    } else {
        f.append(" (neutral — no clear signal).");
        (Lean::Neutral, 0)
    };
    let mut t = t;
    if c != Lean::Neutral {
        t.momentum = c;
    }
    t.note("macd", f, c, Dec::from_i64(w))
}

// ---------------------------------------------------------------------------
// Bollinger Bands.
// ---------------------------------------------------------------------------
pub open spec fn bollinger_reading(ind: Indicators, ctx: Context) -> (Lean, int, Seq<char>) {
    let p = "Price ("@ + decimal_text(ind.price@) + ") "@;
    let lo = decimal_text(ind.bb_lower@);
    let hi = decimal_text(ind.bb_upper@);
    let below = dv_lt(ind.price@, ind.bb_lower@);
    let above = dv_lt(ind.bb_upper@, ind.price@);
    if below && ctx.at_support {
        (Lean::Buy, 2, p + "below lower BB ("@ + lo + ") AND at support. Mean-reversion buy is valid."@)
    } else if above && ctx.at_resistance {
        (Lean::Sell, 2, p + "above upper BB ("@ + hi + ") AND at resistance. Mean-reversion sell is valid."@)
    } else if below {
        (
            Lean::Neutral,
            0,
            p + "below lower BB ("@ + lo + ") but NOT at support — trend continuation, not a buy."@,
        )
    } else if above {
        (
            Lean::Neutral,
            0,
            p + "above upper BB ("@ + hi + ") but NOT at resistance — trend continuation, not a sell."@,
        )
    } else {
        (Lean::Neutral, 0, p + "inside BB ("@ + lo + " to "@ + hi + "). Normal range."@)
    }
}

pub open spec fn bollinger_stage(t: TallyV, ind: Indicators, ctx: Context) -> Option<TallyV> {
    let (c, w, f) = bollinger_reading(ind, ctx);
    note(t, "bollinger"@, f, c, int_dv(w))
}

/// Records where price sits against the Bollinger Bands.
pub fn bollinger_fact(t: Tally, ind: &Indicators, ctx: &Context) -> (r: Option<Tally>)
    requires
        t.wf(),
        ind.wf(),
        ctx.wf(),
    ensures
        opt_tally(r) == bollinger_stage(t@, *ind, *ctx),
        r matches Some(x) ==> x.wf(),
{
    let below = ind.price.lt(&ind.bb_lower);
    let above = ind.bb_upper.lt(&ind.price);
    let mut f = String::from_str("Price (");
    f.append(ind.price.to_text().as_str());
    f.append(") ");
    let (c, w): (Lean, i64) = if below && ctx.at_support {
        f.append("below lower BB (");
        f.append(ind.bb_lower.to_text().as_str());
        f.append(") AND at support. Mean-reversion buy is valid.");
        (Lean::Buy, 2)
    } else if above && ctx.at_resistance {
        f.append("above upper BB (");
        f.append(ind.bb_upper.to_text().as_str());
        f.append(") AND at resistance. Mean-reversion sell is valid.");
        (Lean::Sell, 2)
    } else if below {
        f.append("below lower BB (");
        f.append(ind.bb_lower.to_text().as_str());
        f.append(") but NOT at support — trend continuation, not a buy.");
        (Lean::Neutral, 0)
    } else if above {
        f.append("above upper BB (");
        f.append(ind.bb_upper.to_text().as_str());
        f.append(") but NOT at resistance — trend continuation, not a sell.");
        (Lean::Neutral, 0)
    } else {
        f.append("inside BB (");
        f.append(ind.bb_lower.to_text().as_str());
        f.append(" to ");
        f.append(ind.bb_upper.to_text().as_str());
        f.append("). Normal range.");
        (Lean::Neutral, 0)
    };
    t.note("bollinger", f, c, Dec::from_i64(w))
}

// ---------------------------------------------------------------------------
// Stochastic.
// ---------------------------------------------------------------------------
pub open spec fn stochastic_reading(ind: Indicators, ctx: Context) -> (Lean, int, Seq<char>) {
    let k = "Stochastic %K = "@ + decimal_text(ind.stoch_k@);
    let low = dv_lt(ind.stoch_k@, int_dv(20));
    let high = dv_lt(int_dv(80), ind.stoch_k@);
    if low && ctx.at_support {
        (
            Lean::Buy,
            2,
            k + " (oversold) AND at real support ("@ + decimal_text(round_dp_spec(ctx.prior_low@, 5))
                + "). Mean-reversion buy signal is valid at support."@,
        )
    } else if high && ctx.at_resistance {
        (
            Lean::Sell,
            2,
            k + " (overbought) AND at real resistance ("@ + decimal_text(round_dp_spec(ctx.prior_high@, 5))
                + "). Mean-reversion sell signal is valid at resistance."@,
        )
    } else if low {
        (
            Lean::Neutral,
            0,
            k + " (oversold but NOT at support — in a downtrend, oversold is normal, not a buy)."@,
        )
    } else if high {
        (
            Lean::Neutral,
            0,
            k + " (overbought but NOT at resistance — in an uptrend, overbought is normal, not a sell)."@,
        )
    } else {
        (Lean::Neutral, 0, k + ". Mid-range."@)
    }
}

pub open spec fn stochastic_stage(t: TallyV, ind: Indicators, ctx: Context) -> Option<TallyV> {
    let (c, w, f) = stochastic_reading(ind, ctx);
    note(t, "stochastic"@, f, c, int_dv(w))
}

/// Records the Stochastic %K reading.
pub fn stochastic_fact(t: Tally, ind: &Indicators, ctx: &Context) -> (r: Option<Tally>)
    requires
        t.wf(),
        ind.wf(),
        ctx.wf(),
    ensures
        opt_tally(r) == stochastic_stage(t@, *ind, *ctx),
        r matches Some(x) ==> x.wf(),
{
    let low = ind.stoch_k.lt(&Dec::from_i64(20));
    let high = ind.stoch_k.gt(&Dec::from_i64(80));
    let mut f = String::from_str("Stochastic %K = ");
    f.append(ind.stoch_k.to_text().as_str());
    let (c, w): (Lean, i64) = if low && ctx.at_support {
        f.append(" (oversold) AND at real support (");
        f.append(ctx.prior_low.round_dp(5).to_text().as_str());
        f.append("). Mean-reversion buy signal is valid at support.");
        (Lean::Buy, 2)
    } else if high && ctx.at_resistance {
        f.append(" (overbought) AND at real resistance (");
        f.append(ctx.prior_high.round_dp(5).to_text().as_str());
        f.append("). Mean-reversion sell signal is valid at resistance.");
        (Lean::Sell, 2)
    } else if low {
        f.append(" (oversold but NOT at support — in a downtrend, oversold is normal, not a buy).");
        (Lean::Neutral, 0)
    } else if high {
        f.append(" (overbought but NOT at resistance — in an uptrend, overbought is normal, not a sell).");
        (Lean::Neutral, 0)
    } else {
        f.append(". Mid-range.");
        (Lean::Neutral, 0)
    };
    t.note("stochastic", f, c, Dec::from_i64(w))
}

} // verus!
