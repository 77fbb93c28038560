//! The trade plan around a decision: entry checklist, what to watch, candle
//! timing and the expected duration of the move.
use crate::decimal::{
    decimal_checked_div, decimal_checked_mul, decimal_text, decimal_text_prec, dv_le, dv_lt, dv_num, int_dv, mul_v,
    round_dp_spec, scaled_dv, Dec, DecV,
};
use crate::decision::{conviction_bar, Bias};
use crate::evidence::{Context, Lean, Tally, TallyV};
use crate::indicators::{series_get, Indicators};
use crate::news::NewsAssessment;
use crate::reading::{countdown_text, format_countdown};
use crate::text::{contains, has_infix, starts_with, string_eq};
use vstd::prelude::*;

verus! {

/// Every condition that must hold before entering, with a line per condition.
#[derive(Clone, Debug)]
pub struct EntryChecklist {
    pub trend_aligned: bool,
    pub momentum_aligned: bool,
    pub pattern_confirmed: bool,
    pub no_news_risk: bool,
    pub risk_reward_ok: bool,
    pub session_active: bool,
    pub ready: bool,
    pub details: Vec<String>,
}

pub open spec fn agrees(l: Lean, dir: Bias) -> bool {
    (l == Lean::Buy && dir == Bias::Buy) || (l == Lean::Sell && dir == Bias::Sell)
}

pub open spec fn yes_no(b: bool) -> Seq<char> {
    if b {
        "YES"@
    } else {
        "NO"@
    }
}

/// The checklist's readings: trend, momentum, pattern, news, reward/risk,
/// session, conviction.
pub open spec fn trend_ok(dir: Bias, t: TallyV) -> bool {
    dir != Bias::Wait && (agrees(t.trend, dir) || t.trend == Lean::Neutral)
}

pub open spec fn momentum_ok(dir: Bias, t: TallyV) -> bool {
    dir != Bias::Wait && (agrees(t.momentum, dir) || t.momentum == Lean::Neutral)
}

pub open spec fn pattern_ok(dir: Bias, t: TallyV, ind: Indicators, ctx: Context) -> bool {
    dir != Bias::Wait && (agrees(t.pattern, dir) || ind.consecutive_bearish >= 3 || ind.consecutive_bullish >= 3
        || ctx.bull_rev || ctx.bear_rev)
}

pub open spec fn session_on(hour: int) -> bool {
    7 <= hour <= 21
}

pub open spec fn conviction_ok(dir: Bias, score: DecV) -> bool {
    dir != Bias::Wait && dv_le(conviction_bar(), score)
}

/// All seven conditions hold.
pub open spec fn ready_spec(
    dir: Bias,
    score: DecV,
    t: TallyV,
    ind: Indicators,
    ctx: Context,
    no_news: bool,
    rr_ok: bool,
    hour: int,
) -> bool {
    dir != Bias::Wait && conviction_ok(dir, score) && trend_ok(dir, t) && momentum_ok(dir, t) && pattern_ok(
        dir,
        t,
        ind,
        ctx,
    ) && no_news && rr_ok && session_on(hour)
}

pub open spec fn checklist_lines(
    trend: bool,
    momentum: bool,
    pattern: bool,
    conv: bool,
    pct: Seq<char>,
    bar: Seq<char>,
    no_news: bool,
    rr: bool,
    session: bool,
    ready: bool,
) -> Seq<Seq<char>> {
    seq![
        "1. Trend aligned: "@ + yes_no(trend),
        "2. Momentum aligned: "@ + yes_no(momentum),
        "3. Pattern confirmed: "@ + yes_no(pattern),
        "4. Conviction: "@ + yes_no(conv) + " ("@ + pct + "%, bar "@ + bar + "%)"@,
        "5. No news risk: "@ + yes_no(no_news),
        "6. Risk/reward: "@ + yes_no(rr),
        "7. Session active: "@ + yes_no(session),
        if ready {
            "ALL CONDITIONS MET — trade is valid."@
        } else {
            "NOT ALL CONDITIONS MET — do not trade."@
        },
    ]
}

/// The checklist's lines for this decision.
pub open spec fn checklist_texts(
    dir: Bias,
    score: DecV,
    t: TallyV,
    ind: Indicators,
    ctx: Context,
    news_status: Seq<char>,
    sl: DecV,
    tp: DecV,
    hour: int,
) -> Seq<Seq<char>> {
    let no_news = news_status != "danger"@;
    let rr = dv_le(mul_v(sl, int_dv(2)), tp);
    checklist_lines(
        trend_ok(dir, t),
        momentum_ok(dir, t),
        pattern_ok(dir, t, ind, ctx),
        conviction_ok(dir, score),
        decimal_text_prec(mul_v(score, int_dv(100)), 0),
        decimal_text_prec(mul_v(conviction_bar(), int_dv(100)), 0),
        no_news,
        rr,
        session_on(hour),
        ready_spec(dir, score, t, ind, ctx, no_news, rr, hour),
    )
}

/// The checklist is the one for this decision.
pub open spec fn checklist_of(
    c: EntryChecklist,
    dir: Bias,
    score: DecV,
    t: TallyV,
    ind: Indicators,
    ctx: Context,
    news_status: Seq<char>,
    sl: DecV,
    tp: DecV,
    hour: int,
) -> bool {
    let no_news = news_status != "danger"@;
    let rr = dv_le(mul_v(sl, int_dv(2)), tp);
    &&& checklist_defined(score, sl)
    &&& c.trend_aligned == trend_ok(dir, t)
    &&& c.momentum_aligned == momentum_ok(dir, t)
    &&& c.pattern_confirmed == pattern_ok(dir, t, ind, ctx)
    &&& c.no_news_risk == no_news
    &&& c.risk_reward_ok == rr
    &&& c.session_active == session_on(hour)
    &&& c.ready == ready_spec(dir, score, t, ind, ctx, no_news, rr, hour)
    &&& c.details@.map_values(|s: String| s@) == checklist_texts(dir, score, t, ind, ctx, news_status, sl, tp, hour)
}

/// The checklist can be written unless a percentage overflows.
pub open spec fn checklist_defined(score: DecV, sl: DecV) -> bool {
    decimal_checked_mul(sl, int_dv(2)) is Some && decimal_checked_mul(score, int_dv(100)) is Some
        && decimal_checked_mul(conviction_bar(), int_dv(100)) is Some
}

fn yes_no_exec(b: bool) -> (r: &'static str)
    ensures
        r@ == yes_no(b),
{
    if b {
        "YES"
    } else {
        "NO"
    }
}

fn line(prefix: &str, b: bool) -> (r: String)
    ensures
        r@ == prefix@ + yes_no(b),
{
    let mut s = String::from_str(prefix);
    s.append(yes_no_exec(b));
    s
}

/// Builds the entry checklist; `None` when a percentage overflows.
pub fn entry_checklist(
    dir: Bias,
    score: &Dec,
    tally: &Tally,
    ind: &Indicators,
    ctx: &Context,
    news: &NewsAssessment,
    sl: &Dec,
    tp: &Dec,
    hour: u32,
) -> (r: Option<EntryChecklist>)
    requires
        score.wf(),
        sl.wf(),
        tp.wf(),
    ensures
        r is Some <==> checklist_defined(score@, sl@),
        r matches Some(c) ==> checklist_of(c, dir, score@, tally@, *ind, *ctx, news.status@, sl@, tp@, hour as int),
{
    let trend = tally.trend;
    let momentum = tally.momentum;
    let pattern = tally.pattern;
    proof {
        reveal_strlit("danger");
    }
    let session_active = hour >= 7 && hour <= 21;
    let not_wait = dir != Bias::Wait;
    let trend_aligned = not_wait && ((trend == Lean::Buy && dir == Bias::Buy) || (trend == Lean::Sell && dir
        == Bias::Sell) || trend == Lean::Neutral);
    let momentum_aligned = not_wait && ((momentum == Lean::Buy && dir == Bias::Buy) || (momentum == Lean::Sell
        && dir == Bias::Sell) || momentum == Lean::Neutral);
    let pattern_confirmed = not_wait && ((pattern == Lean::Buy && dir == Bias::Buy) || (pattern == Lean::Sell
        && dir == Bias::Sell) || ind.consecutive_bearish >= 3 || ind.consecutive_bullish >= 3 || ctx.bull_rev
        || ctx.bear_rev);
    let no_news_risk = !string_eq(&news.status, "danger");
    let sl2 = sl.mul(&Dec::from_i64(2))?;
    let risk_reward_ok = sl2.le(tp);
    let bar = Dec::new(58, 2);
    let conv = not_wait && bar.le(score);
    let ready = not_wait && conv && trend_aligned && momentum_aligned && pattern_confirmed && no_news_risk
        && risk_reward_ok && session_active;
    let hundred = Dec::from_i64(100);
    let pct = score.mul(&hundred)?;
    let barpct = bar.mul(&hundred)?;
    let mut details: Vec<String> = Vec::new();
    details.push(line("1. Trend aligned: ", trend_aligned));
    details.push(line("2. Momentum aligned: ", momentum_aligned));
    details.push(line("3. Pattern confirmed: ", pattern_confirmed));
    let pct_text = pct.to_text_prec(0);
    let bar_text = barpct.to_text_prec(0);
    let mut l4 = line("4. Conviction: ", conv);
    l4.append(" (");
    l4.append(pct_text.as_str());
    l4.append("%, bar ");
    l4.append(bar_text.as_str());
    l4.append("%)");
    details.push(l4);
    details.push(line("5. No news risk: ", no_news_risk));
    details.push(line("6. Risk/reward: ", risk_reward_ok));
    details.push(line("7. Session active: ", session_active));
    if ready {
        details.push(String::from_str("ALL CONDITIONS MET — trade is valid."));
    } else {
        details.push(String::from_str("NOT ALL CONDITIONS MET — do not trade."));
    }
    let c = EntryChecklist {
        trend_aligned,
        momentum_aligned,
        pattern_confirmed,
        no_news_risk,
        risk_reward_ok,
        session_active,
        ready,
        details,
    };
    assert(c.details@.map_values(|s: String| s@) =~= checklist_lines(
        trend_aligned,
        momentum_aligned,
        pattern_confirmed,
        conv,
        pct_text@,
        bar_text@,
        no_news_risk,
        risk_reward_ok,
        session_active,
        ready,
    ));
    Some(c)
}

// ---------------------------------------------------------------------------
// What to watch.
// ---------------------------------------------------------------------------
pub open spec fn above_below(dir: Bias) -> Seq<char> {
    if dir == Bias::Buy {
        "above"@
    } else {
        "below"@
    }
}

pub open spec fn watch_list(dir: Bias, rsi: DecV, ind: Indicators, news: NewsAssessment, countdown: Seq<char>) -> Seq<
    Seq<char>,
> {
    let l1 = "RSI = "@ + decimal_text(rsi) + ". If it crosses "@ + above_below(dir)
        + " 30/70, reversal is confirmed."@;
    let l2 = "Price vs EMA50 ("@ + (match series_get(ind.ema@, 50) {
        Some(e) => decimal_text(e),
        None => Seq::empty(),
    }) + "). If price holds "@ + above_below(dir) + " it, trend continues."@;
    let l3 = "Support: "@ + decimal_text(ind.swing_low@) + " | Resistance: "@ + decimal_text(ind.swing_high@);
    let l5 = "Next candle in "@ + countdown + " — watch the open."@;
    if news.status@ != "clear"@ {
        seq![l1, l2, l3, "NEWS: "@ + news.summary@, l5]
    } else {
        seq![l1, l2, l3, l5]
    }
}

/// The levels and readings to watch after the decision.
pub fn what_to_watch(dir: Bias, rsi: &Dec, ind: &Indicators, news: &NewsAssessment, countdown: &str) -> (r: Vec<
    String,
>)
    requires
        rsi.wf(),
        ind.wf(),
    ensures
        r@.map_values(|s: String| s@) == watch_list(dir, rsi@, *ind, *news, countdown@),
{
    let ab = if dir == Bias::Buy {
        "above"
    } else {
        "below"
    };
    let mut l1 = String::from_str("RSI = ");
    l1.append(rsi.to_text().as_str());
    l1.append(". If it crosses ");
    l1.append(ab);
    l1.append(" 30/70, reversal is confirmed.");
    let mut l2 = String::from_str("Price vs EMA50 (");
    match Indicators::lookup(&ind.ema, 50) {
        Some(e) => {
            l2.append(e.to_text().as_str());
        },
        None => {
            proof {
                reveal_strlit("");
            }
            l2.append("");
        },
    }
    l2.append("). If price holds ");
    l2.append(ab);
    l2.append(" it, trend continues.");
    let mut l3 = String::from_str("Support: ");
    l3.append(ind.swing_low.to_text().as_str());
    l3.append(" | Resistance: ");
    l3.append(ind.swing_high.to_text().as_str());
    let mut l5 = String::from_str("Next candle in ");
    l5.append(countdown);
    l5.append(" — watch the open.");
    let mut v: Vec<String> = Vec::new();
    v.push(l1);
    v.push(l2);
    v.push(l3);
    if !string_eq(&news.status, "clear") {
        let mut l4 = String::from_str("NEWS: ");
        l4.append(news.summary.as_str());
        v.push(l4);
    }
    v.push(l5);
    assert(v@.map_values(|s: String| s@) =~= watch_list(dir, rsi@, *ind, *news, countdown@));
    v
}

// ---------------------------------------------------------------------------
// Candle timing.
// ---------------------------------------------------------------------------
pub open spec fn abs_int(x: int) -> int {
    if x < 0 {
        -x
    } else {
        x
    }
}

/// Seconds per candle: the gap between the last two candles, or the
/// requested timeframe when there is no positive gap.
pub open spec fn slot_secs(last_ts: int, prev_ts: Option<int>, tf_secs: int) -> int {
    match prev_ts {
        Some(p) => if abs_int(last_ts - p) > 0 {
            abs_int(last_ts - p)
        } else {
            tf_secs
        },
        None => tf_secs,
    }
}

/// Seconds until the next candle opens.
pub open spec fn remaining_secs(now: int, slot: int) -> int {
    (slot - now % slot) % slot
}

pub open spec fn ts_bound() -> int {
    0x100_0000_0000
}

/// Seconds per candle and seconds until the next candle.
pub fn candle_timing(now_ts: i64, last_ts: i64, prev_ts: Option<i64>, tf_secs: i64) -> (r: (i64, i64))
    requires
        0 <= now_ts <= ts_bound(),
        -ts_bound() <= last_ts <= ts_bound(),
        prev_ts matches Some(p) ==> -ts_bound() <= p <= ts_bound(),
        0 < tf_secs <= ts_bound(),
    ensures
        r.0 == slot_secs(last_ts as int, match prev_ts {
            Some(p) => Some(p as int),
            None => None,
        }, tf_secs as int),
        r.0 > 0,
        r.0 <= 2 * ts_bound(),
        r.1 == remaining_secs(now_ts as int, r.0 as int),
        0 <= r.1 < r.0,
{
    let slot: i64 = match prev_ts {
        Some(p) => {
            let g: i64 = if last_ts >= p {
                last_ts - p
            } else {
                p - last_ts
            };
            if g > 0 {
                g
            } else {
                tf_secs
            }
        },
        None => tf_secs,
    };
    let elapsed = now_ts % slot;
    let rem = (slot - elapsed) % slot;
    (slot, rem)
}

// ---------------------------------------------------------------------------
// Expected duration of the move.
// ---------------------------------------------------------------------------
/// Candles the move needs: target distance over the average body, rounded
/// (3 when the body is zero or the count is not an `i64`), one more (at
/// least 3) in a strong trend, clamped to 1..=6 for forex and 1..=3
/// otherwise.  `None` when the division overflows or the strong-trend
/// increment leaves `i64`.
pub open spec fn move_candles_spec(tp: DecV, avg: DecV, adx: DecV, symbol: Seq<char>) -> Option<int> {
    let base: Option<int> = if dv_lt(int_dv(0), avg) {
        match decimal_checked_div(tp, avg) {
            None => None,
            Some(q) => {
                let v = dv_num(round_dp_spec(q, 0));
                Some(
                    if i64::MIN <= v <= i64::MAX {
                        v
                    } else {
                        3
                    },
                )
            },
        }
    } else {
        Some(3)
    };
    match base {
        None => None,
        Some(v) => {
            let strong = dv_lt(int_dv(25), adx);
            if strong && v == i64::MAX {
                None
            } else {
                let v2 = if strong {
                    if v + 1 > 3 {
                        v + 1
                    } else {
                        3
                    }
                } else {
                    v
                };
                let mx = if "frx"@.is_prefix_of(symbol) || has_infix(symbol, "/"@) {
                    6
                } else {
                    3
                };
                Some(
                    if v2 < 1 {
                        1
                    } else if v2 > mx {
                        mx
                    } else {
                        v2
                    },
                )
            }
        },
    }
}

/// The rounded integer value of a decimal of scale 0, if it fits `i64`.
fn integer_value(d: &Dec) -> (r: Option<i64>)
    requires
        d.wf(),
        d@.2 == 0,
    ensures
        match r {
            Some(v) => v as int == dv_num(d@),
            None => !(i64::MIN <= dv_num(d@) <= i64::MAX),
        },
{
    if d.negative {
        if d.mantissa <= 9223372036854775808 {
            let m = d.mantissa as i128;
            Some((-m) as i64)
        } else {
            None
        }
    } else {
        if d.mantissa <= 9223372036854775807 {
            Some(d.mantissa as i64)
        } else {
            None
        }
    }
}

/// Candles the move is expected to take.
pub fn move_candles(tp: &Dec, avg: &Dec, adx: &Dec, symbol: &str) -> (r: Option<u32>)
    requires
        tp.wf(),
        avg.wf(),
        adx.wf(),
    ensures
        match r {
            Some(v) => move_candles_spec(tp@, avg@, adx@, symbol@) == Some(v as int),
            None => move_candles_spec(tp@, avg@, adx@, symbol@) is None,
        },
{
    let base: i64 = if Dec::zero().lt(avg) {
        let q = tp.div(avg)?;
        let r = q.round();
        match integer_value(&r) {
            Some(v) => v,
            None => 3,
        }
    } else {
        3
    };
    let strong = adx.gt(&Dec::from_i64(25));
    if strong && base == i64::MAX {
        return None;
    }
    let v2: i64 = if strong {
        if base + 1 > 3 {
            base + 1
        } else {
            3
        }
    } else {
        base
    };
    let mx: i64 = if starts_with(symbol, "frx") || contains(symbol, "/") {
        6
    } else {
        3
    };
    let c: i64 = if v2 < 1 {
        1
    } else if v2 > mx {
        mx
    } else {
        v2
    };
    Some(c as u32)
}

/// "Xm Ys" for the expected duration of the move.
pub fn move_duration_label(candles: u32, slot: i64) -> (r: String)
    requires
        candles <= 6,
        0 < slot <= 2 * ts_bound(),
    ensures
        r@ == countdown_text(candles as int * slot as int),
{
    assert(candles as int * slot as int <= 6 * (2 * ts_bound())) by (nonlinear_arith)
        requires
            candles <= 6,
            0 < slot <= 2 * ts_bound(),
    ;
    format_countdown(candles as i64 * slot)
}

} // verus!
