//! Exhaustion readings: runs of same-coloured candles at a prior swing,
//! reversal convergence around a reversal candlestick, and the dampening of
//! a side after four or more candles in its direction.
use crate::decimal::{
    decimal_checked_mul, decimal_text, dv_lt, int_dv, mul_v, pow10, round_dp_spec, scaled_dv, sub_v, Dec, DecV,
};
use crate::domain::{candles_wf, Candle};
use crate::evidence::{b2n, ev, note, opt_tally, with_dirs, with_ev, with_scores, Context, Lean, Tally, TallyV};
use crate::indicators::Indicators;
use crate::text::{nat_text, u64_text};
use crate::trend::last_n;
use vstd::prelude::*;

verus! {

// ---------------------------------------------------------------------------
// Consecutive candles at a prior swing.
// ---------------------------------------------------------------------------
pub open spec fn exhaustion_stage(t: TallyV, ind: Indicators, ctx: Context) -> Option<TallyV> {
    let t1 = if ind.consecutive_bearish >= 3 && ctx.at_support {
        note(
            t,
            "momentum"@,
            nat_text(ind.consecutive_bearish as nat) + " consecutive bearish candles near prior swing low (support "@
                + decimal_text(round_dp_spec(ctx.prior_low@, 5)) + "). Exhaustion — reversal likely."@,
            Lean::Buy,
            int_dv(2),
        )
    } else {
        Some(t)
    };
    match t1 {
        None => None,
        Some(t1) => if ind.consecutive_bullish >= 3 && ctx.at_resistance {
            note(
                t1,
                "momentum"@,
                nat_text(ind.consecutive_bullish as nat)
                    + " consecutive bullish candles near prior swing high (resistance "@ + decimal_text(
                    round_dp_spec(ctx.prior_high@, 5),
                ) + "). Exhaustion — reversal likely."@,
                Lean::Sell,
                int_dv(2),
            )
        } else {
            Some(t1)
        },
    }
}

/// Three or more candles of one colour ending at a prior swing level are a
/// sign of exhaustion, in favour of the other side.
pub fn exhaustion_fact(t: Tally, ind: &Indicators, ctx: &Context) -> (r: Option<Tally>)
    requires
        t.wf(),
        ind.wf(),
        ctx.wf(),
    ensures
        opt_tally(r) == exhaustion_stage(t@, *ind, *ctx),
        r matches Some(x) ==> x.wf(),
{
    let mut t = t;
    if ind.consecutive_bearish >= 3 && ctx.at_support {
        let mut f = u64_text(ind.consecutive_bearish as u64);
        f.append(" consecutive bearish candles near prior swing low (support ");
        f.append(ctx.prior_low.round_dp(5).to_text().as_str());
        f.append("). Exhaustion — reversal likely.");
        t = t.note("momentum", f, Lean::Buy, Dec::from_i64(2))?;
    }
    if ind.consecutive_bullish >= 3 && ctx.at_resistance {
        let mut f = u64_text(ind.consecutive_bullish as u64);
        f.append(" consecutive bullish candles near prior swing high (resistance ");
        f.append(ctx.prior_high.round_dp(5).to_text().as_str());
        f.append("). Exhaustion — reversal likely.");
        t = t.note("momentum", f, Lean::Sell, Dec::from_i64(2))?;
    }
    Some(t)
}

// ---------------------------------------------------------------------------
// Reversal convergence.
// ---------------------------------------------------------------------------
pub open spec fn bull_reversal_confirmed(ctx: Context) -> bool {
    ctx.bull_rev && ctx.bull_rev_count >= 2
}

pub open spec fn bear_reversal_confirmed(ctx: Context) -> bool {
    ctx.bear_rev && ctx.bear_rev_count >= 2
}

pub open spec fn reversal_finding(bullish: bool, count: nat) -> Seq<char> {
    (if bullish {
        "BULLISH REVERSAL CONFIRMED: "@
    } else {
        "BEARISH REVERSAL CONFIRMED: "@
    }) + nat_text(count) + " signals align WITH a reversal candlestick. Reversal probability 71%+."@
}

/// A reversal candlestick with at least one more reversal signal weighs 4
/// and sets the pattern and momentum sides.
pub open spec fn reversal_stage(t: TallyV, ctx: Context) -> Option<TallyV> {
    let t1 = if bull_reversal_confirmed(ctx) {
        note(
            with_dirs(t, t.trend, Lean::Buy, Lean::Buy),
            "reversal"@,
            reversal_finding(true, ctx.bull_rev_count as nat),
            Lean::Buy,
            int_dv(4),
        )
    } else {
        Some(t)
    };
    match t1 {
        None => None,
        Some(t1) => if bear_reversal_confirmed(ctx) {
            note(
                with_dirs(t1, t1.trend, Lean::Sell, Lean::Sell),
                "reversal"@,
                reversal_finding(false, ctx.bear_rev_count as nat),
                Lean::Sell,
                int_dv(4),
            )
        } else {
            Some(t1)
        },
    }
}

/// Records confirmed reversals.
pub fn reversal_fact(t: Tally, ctx: &Context) -> (r: Option<Tally>)
    requires
        t.wf(),
        ctx.wf(),
    ensures
        opt_tally(r) == reversal_stage(t@, *ctx),
        r matches Some(x) ==> x.wf(),
{
    let mut t = t;
    if ctx.bull_rev && ctx.bull_rev_count >= 2 {
        let mut f = String::from_str("BULLISH REVERSAL CONFIRMED: ");
        f.append(u64_text(ctx.bull_rev_count as u64).as_str());
        f.append(" signals align WITH a reversal candlestick. Reversal probability 71%+.");
        t.pattern = Lean::Buy;
        t.momentum = Lean::Buy;
        t = t.note("reversal", f, Lean::Buy, Dec::from_i64(4))?;
    }
    if ctx.bear_rev && ctx.bear_rev_count >= 2 {
        let mut f = String::from_str("BEARISH REVERSAL CONFIRMED: ");
        f.append(u64_text(ctx.bear_rev_count as u64).as_str());
        f.append(" signals align WITH a reversal candlestick. Reversal probability 71%+.");
        t.pattern = Lean::Sell;
        t.momentum = Lean::Sell;
        t = t.note("reversal", f, Lean::Sell, Dec::from_i64(4))?;
    }
    Some(t)
}

// ---------------------------------------------------------------------------
// Same-direction fatigue.
// ---------------------------------------------------------------------------
/// Candles that closed above their open.
pub open spec fn bullish_count(s: Seq<Candle>) -> nat
    decreases s.len(),
{
    if s.len() == 0 {
        0
    } else {
        bullish_count(s.drop_last()) + b2n(dv_lt(s.last().open@, s.last().close@))
    }
}

/// Candles that closed below their open.
pub open spec fn bearish_count(s: Seq<Candle>) -> nat
    decreases s.len(),
{
    if s.len() == 0 {
        0
    } else {
        bearish_count(s.drop_last()) + b2n(dv_lt(s.last().close@, s.last().open@))
    }
}

/// 0.6 after five or more candles, 0.75 after four.
pub open spec fn dampen_factor(k: nat) -> DecV {
    if k >= 5 {
        scaled_dv(6, 1)
    } else {
        scaled_dv(75, 2)
    }
}

/// `(1 - d) * 100`, the percentage by which a score is dampened.
pub open spec fn dampen_pct(d: DecV) -> DecV {
    mul_v(sub_v(int_dv(1), d), int_dv(100))
}

pub open spec fn fatigue_stage(t: TallyV, candles: Seq<Candle>) -> Option<TallyV> {
    let w = last_n(candles, 6);
    let nb = bullish_count(w);
    let ns = bearish_count(w);
    if nb >= 4 {
        let d = dampen_factor(nb);
        match decimal_checked_mul(t.bull, d) {
            None => None,
            Some(b) => Some(
                with_ev(
                    with_scores(t, b, t.bear),
                    ev(
                        "fatigue"@,
                        nat_text(nb)
                            + " bullish candles in a row — buying exhausting. Bullish conviction dampened by "@
                            + decimal_text(dampen_pct(d)) + "%."@,
                        Lean::Sell,
                        int_dv(0),
                    ),
                ),
            ),
        }
    } else if ns >= 4 {
        let d = dampen_factor(ns);
        match decimal_checked_mul(t.bear, d) {
            None => None,
            Some(b) => Some(
                with_ev(
                    with_scores(t, t.bull, b),
                    ev(
                        "fatigue"@,
                        nat_text(ns)
                            + " bearish candles in a row — selling exhausting. Bearish conviction dampened by "@
                            + decimal_text(dampen_pct(d)) + "%."@,
                        Lean::Buy,
                        int_dv(0),
                    ),
                ),
            ),
        }
    } else {
        Some(t)
    }
}

fn colour_counts(candles: &Vec<Candle>) -> (r: (u64, u64))
    requires
        candles_wf(candles@),
    ensures
        r.0 as nat == bullish_count(last_n(candles@, 6)),
        r.1 as nat == bearish_count(last_n(candles@, 6)),
        r.0 <= 6,
        r.1 <= 6,
{
    let n = candles.len();
    let start: usize = if n <= 6 {
        0
    } else {
        n - 6
    };
    let ghost s = candles@;
    let mut nb: u64 = 0;
    let mut ns: u64 = 0;
    let mut i: usize = start;
    assert(s.subrange(start as int, start as int) =~= Seq::<Candle>::empty());
    while i < n
        invariant
            s == candles@,
            candles_wf(s),
            n == s.len(),
            start == (if n <= 6 { 0 } else { n - 6 }),
            start <= i <= n,
            nb <= i - start,
            ns <= i - start,
            nb as nat == bullish_count(s.subrange(start as int, i as int)),
            ns as nat == bearish_count(s.subrange(start as int, i as int)),
        decreases n - i,
    {
        let ghost w = s.subrange(start as int, i + 1);
        assert(w.drop_last() =~= s.subrange(start as int, i as int));
        assert(w.last() == s[i as int]);
        assert(s[i as int].wf());
        if candles[i].open.lt(&candles[i].close) {
            nb = nb + 1;
        }
        if candles[i].close.lt(&candles[i].open) {
            ns = ns + 1;
        }
        i = i + 1;
    }
    assert(s.subrange(start as int, n as int) =~= last_n(s, 6));
    (nb, ns)
}

/// The dampening factor and its percentage.
fn dampen(k: u64) -> (r: (Dec, Dec))
    ensures
        r.0.wf(),
        r.1.wf(),
        r.0@ == dampen_factor(k as nat),
        r.1@ == dampen_pct(dampen_factor(k as nat)),
{
    let d = if k >= 5 {
        Dec::new(6, 1)
    } else {
        Dec::new(75, 2)
    };
    let one = Dec::one();
    let hundred = Dec::from_i64(100);
    proof {
        reveal_with_fuel(pow10, 3);
        assert(pow10(0) == 1);
        assert(pow10(1) == 10);
        assert(pow10(2) == 100);
        if k >= 5 {
            assert(crate::decimal::exact_diff(one@, d@) == (false, 4nat, 1nat));
        } else {
            assert(crate::decimal::exact_diff(one@, d@) == (false, 25nat, 2nat));
        }
    }
    let diff = one.sub(&d).unwrap();
    assert(diff@.1 != 0);
    proof {
        if k >= 5 {
            assert(diff@ == (false, 4nat, 1nat));
            assert(crate::decimal::dv_num(diff@) == 4);
            assert(crate::decimal::dv_num(hundred@) == 100);
            assert(crate::decimal::dv_num(diff@) * crate::decimal::dv_num(hundred@) == 400);
            assert(crate::decimal::exact_product(diff@, hundred@) == (false, 400nat, 1nat));
        } else {
            assert(diff@ == (false, 25nat, 2nat));
            assert(crate::decimal::dv_num(diff@) == 25);
            assert(crate::decimal::dv_num(hundred@) == 100);
            assert(crate::decimal::dv_num(diff@) * crate::decimal::dv_num(hundred@) == 2500);
            assert(crate::decimal::exact_product(diff@, hundred@) == (false, 2500nat, 2nat));
        }
    }
    let pct = diff.mul(&hundred).unwrap();
    (d, pct)
}

/// After four or more candles of one colour among the last six, that side's
/// score is multiplied by 0.75 (0.6 after five or more).
pub fn fatigue_fact(t: Tally, candles: &Vec<Candle>) -> (r: Option<Tally>)
    requires
        t.wf(),
        candles_wf(candles@),
    ensures
        opt_tally(r) == fatigue_stage(t@, candles@),
        r matches Some(x) ==> x.wf(),
{
    let (nb, ns) = colour_counts(candles);
    let mut t = t;
    if nb >= 4 {
        let (d, pct) = dampen(nb);
        t.bull = t.bull.mul(&d)?;
        let mut f = u64_text(nb);
        f.append(" bullish candles in a row — buying exhausting. Bullish conviction dampened by ");
        f.append(pct.to_text().as_str());
        f.append("%.");
        t.record("fatigue", f, Lean::Sell, Dec::zero());
        Some(t)
    } else if ns >= 4 {
        let (d, pct) = dampen(ns);
        t.bear = t.bear.mul(&d)?;
        let mut f = u64_text(ns);
        f.append(" bearish candles in a row — selling exhausting. Bearish conviction dampened by ");
        f.append(pct.to_text().as_str());
        f.append("%.");
        t.record("fatigue", f, Lean::Buy, Dec::zero());
        Some(t)
    } else {
        Some(t)
    }
}

} // verus!
