//! The tools read one by one; each adds its fact to the tally.
use crate::candles::{candle_fits, direction_of};
use crate::decimal::{
    abs_v, decimal_checked_div, decimal_checked_mul, decimal_checked_sub, decimal_text, dv_eq, dv_is_zero, dv_lt,
    int_dv, max_v, min_v, round_dp_spec, scaled_dv, sub_v, Dec, DecV,
};
use crate::domain::{candles_wf, Candle};
use crate::evidence::{
    credit, ev, lean_text, note, opt_tally, with_dirs, with_ev, with_scores, Context, Evidence, Lean, Tally,
    TallyV,
};
use crate::indicators::{patterns_wf, series_get, Indicators};
use crate::reading::{meaning_spec, pattern_meaning, pattern_sentiment, sentiment_spec};
use crate::text::{cat, has_infix, nat_text, u64_text};
use vstd::prelude::*;

verus! {

// ---------------------------------------------------------------------------
// Last candle and ADX.
// ---------------------------------------------------------------------------
pub open spec fn body_of(c: Candle) -> DecV {
    round_dp_spec(abs_v(sub_v(c.close@, c.open@)), 6)
}

pub open spec fn upper_wick_of(c: Candle) -> DecV {
    round_dp_spec(sub_v(c.high@, max_v(c.open@, c.close@)), 6)
}

pub open spec fn lower_wick_of(c: Candle) -> DecV {
    round_dp_spec(sub_v(min_v(c.open@, c.close@), c.low@), 6)
}

/// Body as a percentage of the open, 2 decimals (zero for a zero open).
pub open spec fn body_pct_of(c: Candle) -> Option<DecV> {
    if dv_is_zero(c.open@) {
        Some(int_dv(0))
    } else {
        match decimal_checked_div(body_of(c), c.open@) {
            Some(q) => match decimal_checked_mul(q, int_dv(100)) {
                Some(m) => Some(round_dp_spec(m, 2)),
                None => None,
            },
            None => None,
        }
    }
}

pub open spec fn price_finding(c: Candle, pct: DecV) -> Seq<char> {
    "Last candle: "@ + direction_of(c) + " | O="@ + decimal_text(c.open@) + " H="@ + decimal_text(c.high@)
        + " L="@ + decimal_text(c.low@) + " C="@ + decimal_text(c.close@) + " | body="@ + decimal_text(
        body_of(c),
    ) + " ("@ + decimal_text(pct) + "%) | wicks u="@ + decimal_text(upper_wick_of(c)) + " l="@
        + decimal_text(lower_wick_of(c)) + "."@
}

pub open spec fn price_stage(t: TallyV, c: Candle) -> Option<TallyV> {
    match body_pct_of(c) {
        Some(p) => Some(with_ev(t, ev("price"@, price_finding(c, p), Lean::Neutral, int_dv(0)))),
        None => None,
    }
}

/// Records the last candle's OHLC, body, body percentage and wicks.
pub fn price_fact(t: Tally, c: &Candle) -> (r: Option<Tally>)
    requires
        t.wf(),
        c.wf(),
        candle_fits(*c),
    ensures
        opt_tally(r) == price_stage(t@, *c),
        r matches Some(x) ==> x.wf(),
{
    let body = c.close.sub(&c.open).unwrap().abs().round_dp(6);
    let pct = if c.open.is_zero() {
        Dec::zero()
    } else {
        body.div(&c.open)?.mul(&Dec::from_i64(100))?.round_dp(2)
    };
    let upper = c.high.sub(&c.open.max(c.close)).unwrap().round_dp(6);
    let lower = c.open.min(c.close).sub(&c.low).unwrap().round_dp(6);
    let dir = if c.close.gt(&c.open) {
        "bullish"
    } else if c.close.lt(&c.open) {
        "bearish"
    } else {
        "neutral"
    };
    let mut f = String::from_str("Last candle: ");
    f.append(dir);
    f.append(" | O=");
    f.append(c.open.to_text().as_str());
    f.append(" H=");
    f.append(c.high.to_text().as_str());
    f.append(" L=");
    f.append(c.low.to_text().as_str());
    f.append(" C=");
    f.append(c.close.to_text().as_str());
    f.append(" | body=");
    f.append(body.to_text().as_str());
    f.append(" (");
    f.append(pct.to_text().as_str());
    f.append("%) | wicks u=");
    f.append(upper.to_text().as_str());
    f.append(" l=");
    f.append(lower.to_text().as_str());
    f.append(".");
    let mut t = t;
    t.record("price", f, Lean::Neutral, Dec::zero());
    Some(t)
}

pub open spec fn adx_finding(ind: Indicators) -> Seq<char> {
    "ADX = "@ + decimal_text(ind.adx@) + ". "@ + (if dv_lt(int_dv(25), ind.adx@) {
        "Strong trend — trend-following tools are reliable."@
    } else if dv_lt(ind.adx@, int_dv(20)) {
        "Weak/no trend — market is ranging. Mean-reversion tools apply."@
    } else {
        "Trend is developing — momentum tools apply."@
    }) + "."@
}

/// Records the ADX reading and what it says about the regime.
pub fn adx_fact(t: Tally, ind: &Indicators) -> (r: Tally)
    requires
        t.wf(),
        ind.wf(),
    ensures
        r.wf(),
        r@ == with_ev(t@, ev("adx"@, adx_finding(*ind), Lean::Neutral, int_dv(0))),
{
    let mut f = String::from_str("ADX = ");
    f.append(ind.adx.to_text().as_str());
    f.append(". ");
    if ind.adx.gt(&Dec::from_i64(25)) {
        f.append("Strong trend — trend-following tools are reliable.");
    } else if ind.adx.lt(&Dec::from_i64(20)) {
        f.append("Weak/no trend — market is ranging. Mean-reversion tools apply.");
    } else {
        f.append("Trend is developing — momentum tools apply.");
    }
    f.append(".");
    let mut t = t;
    t.record("adx", f, Lean::Neutral, Dec::zero());
    t
}

// ---------------------------------------------------------------------------
// Candlestick patterns.
// ---------------------------------------------------------------------------
pub open spec fn pattern_finding(name: Seq<char>) -> Seq<char> {
    name + " pattern present. "@ + meaning_spec(name)
}

pub open spec fn pattern_step(t: TallyV, name: Seq<char>, val: DecV) -> Option<TallyV> {
    if !dv_eq(val, int_dv(1)) {
        Some(t)
    } else if dv_eq(sentiment_spec(name).1, int_dv(0)) {
        Some(with_ev(t, ev("candlestick"@, pattern_finding(name), Lean::Neutral, int_dv(0))))
    } else {
        let c = if sentiment_spec(name).0 > 0 {
            Lean::Buy
        } else {
            Lean::Sell
        };
        note(
            with_dirs(t, t.trend, t.momentum, c),
            "candlestick"@,
            pattern_finding(name),
            c,
            sentiment_spec(name).1,
        )
    }
}

/// Every present pattern, in the order reported.
pub open spec fn patterns_stage(t: TallyV, ps: Seq<(String, Dec)>) -> Option<TallyV>
    decreases ps.len(),
{
    if ps.len() == 0 {
        Some(t)
    } else {
        match pattern_step(t, ps[0].0@, ps[0].1@) {
            Some(t2) => patterns_stage(t2, ps.drop_first()),
            None => None,
        }
    }
}

fn pattern_one(t: Tally, name: &String, val: &Dec) -> (r: Option<Tally>)
    requires
        t.wf(),
        val.wf(),
    ensures
        opt_tally(r) == pattern_step(t@, name@, val@),
        r matches Some(x) ==> x.wf(),
{
    if !val.eq(&Dec::one()) {
        return Some(t);
    }
    let (d, w) = pattern_sentiment(name.as_str());
    let mut f = name.clone();
    f.append(" pattern present. ");
    f.append(pattern_meaning(name.as_str()));
    if w.eq(&Dec::zero()) {
        let mut t = t;
        t.record("candlestick", f, Lean::Neutral, Dec::zero());
        return Some(t);
    }
    let c = if d > 0 {
        Lean::Buy
    } else {
        Lean::Sell
    };
    let mut t = t;
    t.pattern = c;
    t.note("candlestick", f, c, w)
}

/// Records each present candlestick pattern with its sentiment and weight.
pub fn patterns_fact(start: Tally, ind: &Indicators) -> (r: Option<Tally>)
    requires
        start.wf(),
        ind.wf(),
    ensures
        opt_tally(r) == patterns_stage(start@, ind.patterns@),
        r matches Some(x) ==> x.wf(),
{
    let ps = &ind.patterns;
    let n = ps.len();
    let ghost t0 = start@;
    let mut t = start;
    let mut i: usize = 0;
    assert(ps@.skip(0) =~= ps@);
    while i < n
        invariant
            n == ps@.len(),
            i <= n,
            patterns_wf(ps@),
            t.wf(),
            ps@ == ind.patterns@,
            t0 == start@,
            patterns_stage(t0, ps@) == patterns_stage(t@, ps@.skip(i as int)),
        decreases n - i,
    {
        assert(ps@.skip(i as int).drop_first() =~= ps@.skip(i + 1));
        assert(ps@.skip(i as int)[0] == ps@[i as int]);
        let ghost tv = t@;
        match pattern_one(t, &ps[i].0, &ps[i].1) {
            Some(t2) => {
                t = t2;
            },
            None => {
                assert(patterns_stage(tv, ps@.skip(i as int)) is None);
                assert(patterns_stage(t0, ind.patterns@) is None);
                return None;
            },
        }
        i = i + 1;
    }
    Some(t)
}
} // verus!
