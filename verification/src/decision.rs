//! From the weighted evidence to a trade: direction and conviction, the
//! two-candle outlook, entry / stop / target, and the average candle body.
use crate::candles::candle_fits;
use crate::decimal::{
    abs_v, decimal_checked_add, decimal_checked_div, decimal_checked_mul, decimal_checked_sub, dv_eq, dv_le, dv_lt,
    dv_wf, exact_diff, exact_product, exact_sum, int_dv, max_v, scaled_dv, Dec, DecV,
};
use crate::domain::{candles_wf, Candle};
use crate::evidence::{ev, opt_tally, with_ev, Context, Lean, Tally, TallyV};
use crate::exhaustion::{bear_reversal_confirmed, bearish_count, bull_reversal_confirmed, bullish_count};
use crate::indicators::{series_get, Indicators};
use crate::text::{starts_with, text_upper, to_upper};
use crate::trend::last_n;
use vstd::prelude::*;

verus! {

/// The trade direction: buy, sell, or wait for a better setup.
#[derive(Clone, Copy, Debug, PartialEq, Eq, Structural)]
pub enum Bias {
    Buy,
    Sell,
    Wait,
}

pub open spec fn bias_text(b: Bias) -> Seq<char> {
    match b {
        Bias::Buy => "buy"@,
        Bias::Sell => "sell"@,
        Bias::Wait => "wait"@,
    }
}

impl Bias {
    /// "buy", "sell" or "wait".
    pub fn to_text(&self) -> (r: String)
        ensures
            r@ == bias_text(*self),
    {
        match self {
            Bias::Buy => String::from_str("buy"),
            Bias::Sell => String::from_str("sell"),
            Bias::Wait => String::from_str("wait"),
        }
    }
}

pub open spec fn lean_bias(l: Lean) -> Bias {
    match l {
        Lean::Buy => Bias::Buy,
        Lean::Sell => Bias::Sell,
        Lean::Neutral => Bias::Wait,
    }
}

/// Conviction needed to trade: 0.58.
pub open spec fn conviction_bar() -> DecV {
    scaled_dv(58, 2)
}

/// The side all higher timeframes agree on, if they all agree.
pub open spec fn macro_side(ub: nat, ue: nat) -> Option<Lean> {
    if ub > 0 && ue == 0 {
        Some(Lean::Buy)
    } else if ue > 0 && ub == 0 {
        Some(Lean::Sell)
    } else {
        None
    }
}

/// BOOM indices drift up between spikes, CRASH indices down.
pub open spec fn structural_side(upper: Seq<char>) -> Option<Lean> {
    if "BOOM"@.is_prefix_of(upper) {
        Some(Lean::Buy)
    } else if "CRASH"@.is_prefix_of(upper) {
        Some(Lean::Sell)
    } else {
        None
    }
}

pub open spec fn side_word(l: Lean) -> Seq<char> {
    if l == Lean::Buy {
        "BUY"@
    } else {
        "SELL"@
    }
}

pub open spec fn blocked_finding(dom: Lean, md: Lean) -> Seq<char> {
    "BLOCKED: signal is "@ + side_word(dom) + " but ALL upper timeframes are "@ + side_word(md)
        + ". Counter-trend signals are blocked for consistency."@
}

pub open spec fn strong_reversal(ctx: Context) -> bool {
    bull_reversal_confirmed(ctx) || bear_reversal_confirmed(ctx)
}

/// Direction and conviction from the scores.  With no evidence the answer is
/// wait with conviction 0.  Otherwise the stronger side qualifies when its
/// share reaches 0.58 and there is a trend (ADX above 20) or a confirmed
/// reversal, unless all higher timeframes point the other way (then a
/// "macro" fact records the block).  A BOOM/CRASH index that does not
/// qualify still trades the stronger side when its structural side holds at
/// least half of the evidence.  `None` on arithmetic overflow.
pub open spec fn decide_spec(t: TallyV, ind: Indicators, ctx: Context, ub: nat, ue: nat, upper: Seq<char>) -> Option<
    (TallyV, Bias, DecV),
> {
    match decimal_checked_add(t.bull, t.bear) {
        None => None,
        Some(total) => if dv_eq(total, int_dv(0)) {
            Some((t, Bias::Wait, int_dv(0)))
        } else {
            let bull_gt = dv_lt(t.bear, t.bull);
            let dom = if bull_gt {
                Lean::Buy
            } else {
                Lean::Sell
            };
            match decimal_checked_div(if bull_gt { t.bull } else { t.bear }, total) {
                None => None,
                Some(ratio) => {
                    let q0 = dv_le(conviction_bar(), ratio) && (dv_lt(int_dv(20), ind.adx@) || strong_reversal(ctx));
                    let blocked = q0 && macro_side(ub, ue) is Some && macro_side(ub, ue).unwrap() != dom;
                    let t1 = if blocked {
                        with_ev(
                            t,
                            ev("macro"@, blocked_finding(dom, macro_side(ub, ue).unwrap()), Lean::Neutral, int_dv(0)),
                        )
                    } else {
                        t
                    };
                    let q1 = q0 && !blocked;
                    if !q1 && structural_side(upper) is Some {
                        let w = if structural_side(upper).unwrap() == Lean::Buy {
                            t.bull
                        } else {
                            t.bear
                        };
                        let br = if dv_lt(int_dv(0), total) {
                            decimal_checked_div(w, total)
                        } else {
                            Some(int_dv(0))
                        };
                        match br {
                            None => None,
                            Some(br) => Some(
                                (
                                    t1,
                                    if dv_le(scaled_dv(50, 2), br) {
                                        lean_bias(dom)
                                    } else {
                                        Bias::Wait
                                    },
                                    ratio,
                                ),
                            ),
                        }
                    } else {
                        Some(
                            (
                                t1,
                                if q1 {
                                    lean_bias(dom)
                                } else {
                                    Bias::Wait
                                },
                                ratio,
                            ),
                        )
                    }
                },
            }
        },
    }
}

fn side_word_exec(l: Lean) -> (r: &'static str)
    ensures
        r@ == side_word(l),
{
    if l == Lean::Buy {
        "BUY"
    } else {
        "SELL"
    }
}

/// The larger of two non-negative totals is between half and all of their
/// sum.
proof fn lemma_share_bounds(bull: DecV, bear: DecV, total: DecV)
    requires
        dv_le(int_dv(0), bull),
        dv_le(int_dv(0), bear),
        dv_eq(total, exact_sum(bull, bear)),
        !dv_eq(total, int_dv(0)),
    ensures
        ({
            let num = if dv_lt(bear, bull) {
                bull
            } else {
                bear
            };
            &&& dv_le(int_dv(0), num)
            &&& dv_le(num, total)
            &&& dv_lt(int_dv(0), total)
            &&& dv_le(total, exact_sum(num, num))
        }),
{
    let num = if dv_lt(bear, bull) {
        bull
    } else {
        bear
    };
    let z = int_dv(0);
    let k = bull.2 + bear.2 + total.2;
    crate::decimal::lemma_exact_sum_at(bull, bear, k);
    crate::decimal::lemma_exact_sum_at(num, num, k);
    let e = exact_sum(bull, bear);
    let d = exact_sum(num, num);
    crate::decimal::lemma_compare_at(z, bull, k);
    crate::decimal::lemma_compare_at(z, bear, k);
    crate::decimal::lemma_compare_at(bear, bull, k);
    crate::decimal::lemma_compare_at(total, e, k);
    crate::decimal::lemma_compare_at(total, z, k);
    crate::decimal::lemma_compare_at(z, num, k);
    crate::decimal::lemma_compare_at(num, total, k);
    crate::decimal::lemma_compare_at(z, total, k);
    crate::decimal::lemma_compare_at(total, d, k);
    assert(crate::decimal::at_scale(z, k) == 0) by (nonlinear_arith)
        requires
            crate::decimal::dv_num(z) == 0,
            crate::decimal::at_scale(z, k) == crate::decimal::dv_num(z) * crate::decimal::pow10(
                (k - z.2) as nat,
            ),
    ;
}

/// Derives the direction and the conviction score from the tally; with
/// non-negative totals whose exact sum can be represented, the score is zero
/// (no evidence) or between 0.5 and 1.
#[verifier::rlimit(60)]
#[verifier::spinoff_prover]
pub fn decide(t: Tally, ind: &Indicators, ctx: &Context, ub: u32, ue: u32, symbol: &str) -> (r: Option<
    (Tally, Bias, Dec),
>)
    requires
        t.wf(),
        ind.wf(),
        ctx.wf(),
    ensures
        match r {
            Some((t2, b, s)) => {
                &&& decide_spec(t@, *ind, *ctx, ub as nat, ue as nat, text_upper(symbol@)) == Some((t2@, b, s@))
                &&& t2.wf()
                &&& s.wf()
            },
            None => decide_spec(t@, *ind, *ctx, ub as nat, ue as nat, text_upper(symbol@)) is None,
        },
        t.bull@.1 == 0 && t.bear@.1 == 0 ==> (r matches Some((_, b, s)) && b == Bias::Wait && s@ == int_dv(0)),
        dv_le(int_dv(0), t.bull@) && dv_le(int_dv(0), t.bear@) && dv_wf(exact_sum(t.bull@, t.bear@)) ==> (r matches Some(
            (_, _, s),
        ) ==> s@ == int_dv(0) || (dv_le(scaled_dv(5, 1), s@) && dv_le(s@, int_dv(1)))),
{
    let ghost up = text_upper(symbol@);
    let total = t.bull.add(&t.bear)?;
    proof {
        if t.bull@.1 == 0 && t.bear@.1 == 0 {
            assert(total@.1 == 0);
            assert(crate::decimal::pow10(0) == 1);
            assert(crate::decimal::dv_num(total@) == 0);
            assert(int_dv(0).2 == 0 && crate::decimal::dv_num(int_dv(0)) == 0);
            assert(dv_eq(total@, int_dv(0))) by (nonlinear_arith)
                requires
                    crate::decimal::dv_num(total@) == 0,
                    crate::decimal::dv_num(int_dv(0)) == 0,
                    int_dv(0).2 == 0,
                    crate::decimal::pow10(0) == 1,
            ;
        }
    }
    if total.eq(&Dec::zero()) {
        return Some((t, Bias::Wait, Dec::zero()));
    }
    let bull_gt = t.bear.lt(&t.bull);
    let dom = if bull_gt {
        Lean::Buy
    } else {
        Lean::Sell
    };
    let num = if bull_gt {
        t.bull
    } else {
        t.bear
    };
    proof {
        if dv_le(int_dv(0), t.bull@) && dv_le(int_dv(0), t.bear@) && dv_wf(exact_sum(t.bull@, t.bear@)) {
            lemma_share_bounds(t.bull@, t.bear@, total@);
        }
    }
    let ratio = num.div(&total)?;
    let strong = (ctx.bull_rev && ctx.bull_rev_count >= 2) || (ctx.bear_rev && ctx.bear_rev_count >= 2);
    let q0 = Dec::new(58, 2).le(&ratio) && (ind.adx.gt(&Dec::from_i64(20)) || strong);
    let md: Option<Lean> = if ub > 0 && ue == 0 {
        Some(Lean::Buy)
    } else if ue > 0 && ub == 0 {
        Some(Lean::Sell)
    } else {
        None
    };
    let blocked = match md {
        Some(m) => q0 && m != dom,
        None => false,
    };
    let mut t = t;
    if blocked {
        let m = md.unwrap();
        let mut f = String::from_str("BLOCKED: signal is ");
        f.append(side_word_exec(dom));
        f.append(" but ALL upper timeframes are ");
        f.append(side_word_exec(m));
        f.append(". Counter-trend signals are blocked for consistency.");
        t.record("macro", f, Lean::Neutral, Dec::zero());
    }
    let q1 = q0 && !blocked;
    let u = to_upper(symbol);
    let sb: Option<Lean> = if starts_with(u.as_str(), "BOOM") {
        Some(Lean::Buy)
    } else if starts_with(u.as_str(), "CRASH") {
        Some(Lean::Sell)
    } else {
        None
    };
    let dir_dom = if dom == Lean::Buy {
        Bias::Buy
    } else {
        Bias::Sell
    };
    if !q1 && sb.is_some() {
        let b = sb.unwrap();
        let w = if b == Lean::Buy {
            t.bull
        } else {
            t.bear
        };
        let br = if Dec::zero().lt(&total) {
            w.div(&total)?
        } else {
            Dec::zero()
        };
        let d = if Dec::new(50, 2).le(&br) {
            dir_dom
        } else {
            Bias::Wait
        };
        Some((t, d, ratio))
    } else {
        let d = if q1 {
            dir_dom
        } else {
            Bias::Wait
        };
        Some((t, d, ratio))
    }
}

// ---------------------------------------------------------------------------
// Candle bodies.
// ---------------------------------------------------------------------------
/// `|close - open|`, `None` when the difference overflows.
pub open spec fn abs_body(c: Candle) -> Option<DecV> {
    match decimal_checked_sub(c.close@, c.open@) {
        Some(d) => Some(abs_v(d)),
        None => None,
    }
}

/// Sum of the bodies, added from the newest candle back.
pub open spec fn body_sum_nf(s: Seq<Candle>) -> Option<DecV>
    decreases s.len(),
{
    if s.len() == 0 {
        Some(int_dv(0))
    } else {
        match body_sum_nf(s.drop_first()) {
            None => None,
            Some(a) => match abs_body(s[0]) {
                None => None,
                Some(b) => decimal_checked_add(a, b),
            },
        }
    }
}

/// Average body of the last 20 candles (of all of them when fewer).
pub open spec fn avg_body_spec(candles: Seq<Candle>) -> Option<DecV> {
    match body_sum_nf(last_n(candles, 20)) {
        Some(s) => decimal_checked_div(s, int_dv(if candles.len() < 20 { candles.len() as int } else { 20 })),
        None => None,
    }
}

proof fn lemma_body_sum_none(s: Seq<Candle>, k: int, j: int, n: int)
    requires
        0 <= k <= j <= n <= s.len(),
        body_sum_nf(s.subrange(j, n)) is None,
    ensures
        body_sum_nf(s.subrange(k, n)) is None,
    decreases j - k,
{
    if k < j {
        lemma_body_sum_none(s, k + 1, j, n);
        assert(s.subrange(k, n).drop_first() =~= s.subrange(k + 1, n));
    }
}

fn abs_body_exec(c: &Candle) -> (r: Option<Dec>)
    requires
        c.wf(),
    ensures
        opt_view(r) == abs_body(*c),
        r matches Some(x) ==> x.wf(),
{
    let d = c.close.sub(&c.open)?;
    Some(d.abs())
}

pub open spec fn opt_view(o: Option<Dec>) -> Option<DecV> {
    match o {
        Some(d) => Some(d@),
        None => None,
    }
}

/// Average candle body over the last 20 candles.
pub fn avg_body(candles: &Vec<Candle>) -> (r: Option<Dec>)
    requires
        candles_wf(candles@),
        candles.len() <= u32::MAX,
    ensures
        opt_view(r) == avg_body_spec(candles@),
        r matches Some(x) ==> x.wf(),
{
    let n = candles.len();
    let start: usize = if n <= 20 {
        0
    } else {
        n - 20
    };
    let ghost s = candles@;
    let mut acc = Dec::zero();
    let mut i: usize = n;
    assert(s.subrange(n as int, n as int) =~= Seq::<Candle>::empty());
    while i > start
        invariant
            s == candles@,
            candles_wf(s),
            n == s.len(),
            start == (if n <= 20 { 0 } else { n - 20 }),
            start <= i <= n,
            acc.wf(),
            body_sum_nf(s.subrange(i as int, n as int)) == Some(acc@),
        decreases i,
    {
        let ghost w = s.subrange(i - 1, n as int);
        assert(w.drop_first() =~= s.subrange(i as int, n as int));
        assert(w[0] == s[i - 1]);
        assert(s[i - 1].wf());
        let b = match abs_body_exec(&candles[i - 1]) {
            Some(b) => b,
            None => {
                proof {
                    lemma_body_sum_none(s, start as int, i - 1, n as int);
                    assert(s.subrange(start as int, n as int) =~= last_n(s, 20));
                }
                return None;
            },
        };
        acc = match acc.add(&b) {
            Some(a) => a,
            None => {
                proof {
                    lemma_body_sum_none(s, start as int, i - 1, n as int);
                    assert(s.subrange(start as int, n as int) =~= last_n(s, 20));
                }
                return None;
            },
        };
        i = i - 1;
    }
    assert(s.subrange(start as int, n as int) =~= last_n(s, 20));
    let d: u64 = if n < 20 {
        n as u64
    } else {
        20
    };
    acc.div(&Dec::from_u64(d))
}

// ---------------------------------------------------------------------------
// Two-candle outlook.
// ---------------------------------------------------------------------------
/// The last candle's body is more than 1.5 average bodies.
pub open spec fn climax_spec(candles: Seq<Candle>, avg: DecV) -> Option<bool> {
    match abs_body(candles.last()) {
        None => None,
        Some(lb) => match decimal_checked_mul(avg, scaled_dv(15, 1)) {
            None => None,
            Some(m) => Some(dv_lt(m, lb)),
        },
    }
}

/// Advisory outlook for the next two candles.
pub open spec fn outlook_spec(dir: Bias, candles: Seq<Candle>, climax: bool, ctx: Context) -> Seq<char> {
    let last = candles.last();
    let w3 = last_n(candles, 3);
    if dir == Bias::Sell {
        if bearish_count(w3) >= 3 {
            "WARNING: 3+ bearish candles = exhaustion. Next 2 candles may bounce UP. Entry is late — use tight stop."@
        } else if climax && dv_lt(last.close@, last.open@) {
            "WARNING: selling climax. Next 2 candles may snap back UP."@
        } else if ctx.bull_rev {
            "WARNING: bullish reversal candle printed. Next 2 candles may go UP."@
        } else {
            "Next 2 candles: bearish continuation likely — no exhaustion signals."@
        }
    } else if dir == Bias::Buy {
        if bullish_count(w3) >= 3 {
            "WARNING: 3+ bullish candles = exhaustion. Next 2 candles may pull back DOWN. Entry is late — use tight stop."@
        } else if climax && dv_lt(last.open@, last.close@) {
            "WARNING: buying climax. Next 2 candles may pull back DOWN."@
        } else if ctx.bear_rev {
            "WARNING: bearish reversal candle printed. Next 2 candles may go DOWN."@
        } else {
            "Next 2 candles: bullish continuation likely — no exhaustion signals."@
        }
    } else {
        "Next 2 candles: neutral — no clear direction. Wait for a setup."@
    }
}

/// Whether the last candle is a climax candle.
pub fn climax(candles: &Vec<Candle>, avg: &Dec) -> (r: Option<bool>)
    requires
        candles.len() > 0,
        candles_wf(candles@),
        avg.wf(),
    ensures
        r == climax_spec(candles@, avg@),
{
    let last = &candles[candles.len() - 1];
    assert(candles@.last().wf());
    let lb = abs_body_exec(last)?;
    let m = avg.mul(&Dec::new(15, 1))?;
    Some(m.lt(&lb))
}

fn last3_counts(candles: &Vec<Candle>) -> (r: (u64, u64))
    requires
        candles_wf(candles@),
    ensures
        r.0 as nat == bullish_count(last_n(candles@, 3)),
        r.1 as nat == bearish_count(last_n(candles@, 3)),
{
    let n = candles.len();
    let start: usize = if n <= 3 {
        0
    } else {
        n - 3
    };
    let ghost s = candles@;
    let mut nb: u64 = 0;
    let mut ns: u64 = 0;
    let mut i: usize = start;
    assert(s.subrange(start as int, start as int) =~= Seq::<Candle>::empty());
    while i < n
        invariant
            s == candles@,
            candles_wf(s),
            n == s.len(),
            start == (if n <= 3 { 0 } else { n - 3 }),
            start <= i <= n,
            nb <= i - start,
            ns <= i - start,
            nb as nat == bullish_count(s.subrange(start as int, i as int)),
            ns as nat == bearish_count(s.subrange(start as int, i as int)),
        decreases n - i,
    {
        let ghost w = s.subrange(start as int, i + 1);
        assert(w.drop_last() =~= s.subrange(start as int, i as int));
        assert(w.last() == s[i as int]);
        assert(s[i as int].wf());
        if candles[i].open.lt(&candles[i].close) {
            nb = nb + 1;
        }
        if candles[i].close.lt(&candles[i].open) {
            ns = ns + 1;
        }
        i = i + 1;
    }
    assert(s.subrange(start as int, n as int) =~= last_n(s, 3));
    (nb, ns)
}

/// The advisory outlook for the next two candles.
pub fn outlook(dir: Bias, candles: &Vec<Candle>, is_climax: bool, ctx: &Context) -> (r: String)
    requires
        candles.len() > 0,
        candles_wf(candles@),
    ensures
        r@ == outlook_spec(dir, candles@, is_climax, *ctx),
{
    let (nb, ns) = last3_counts(candles);
    let last = &candles[candles.len() - 1];
    assert(candles@.last().wf());
    if dir == Bias::Sell {
        if ns >= 3 {
            String::from_str(
                "WARNING: 3+ bearish candles = exhaustion. Next 2 candles may bounce UP. Entry is late — use tight stop.",
            )
        } else if is_climax && last.close.lt(&last.open) {
            String::from_str("WARNING: selling climax. Next 2 candles may snap back UP.")
        } else if ctx.bull_rev {
            String::from_str("WARNING: bullish reversal candle printed. Next 2 candles may go UP.")
        } else {
            String::from_str("Next 2 candles: bearish continuation likely — no exhaustion signals.")
        }
    } else if dir == Bias::Buy {
        if nb >= 3 {
            String::from_str(
                "WARNING: 3+ bullish candles = exhaustion. Next 2 candles may pull back DOWN. Entry is late — use tight stop.",
            )
        } else if is_climax && last.open.lt(&last.close) {
            String::from_str("WARNING: buying climax. Next 2 candles may pull back DOWN.")
        } else if ctx.bear_rev {
            String::from_str("WARNING: bearish reversal candle printed. Next 2 candles may go DOWN.")
        } else {
            String::from_str("Next 2 candles: bullish continuation likely — no exhaustion signals.")
        }
    } else {
        String::from_str("Next 2 candles: neutral — no clear direction. Wait for a setup.")
    }
}

// ---------------------------------------------------------------------------
// Entry, stop and target.
// ---------------------------------------------------------------------------
/// 0.0001 for forex symbols ("frx" prefix), 1 otherwise.
pub open spec fn pip_size(symbol: Seq<char>) -> DecV {
    if "frx"@.is_prefix_of(symbol) {
        scaled_dv(1, 4)
    } else {
        int_dv(1)
    }
}

/// Stop distance: ATR(14) (0.5% of price without it), at least 20 pips;
/// target distance: twice the stop distance.
pub open spec fn distances_spec(ind: Indicators, symbol: Seq<char>) -> Option<(DecV, DecV)> {
    let atr = match series_get(ind.atr@, 14) {
        Some(a) => Some(a),
        None => decimal_checked_mul(ind.price@, scaled_dv(5, 3)),
    };
    match atr {
        None => None,
        Some(a) => match decimal_checked_mul(pip_size(symbol), int_dv(20)) {
            None => None,
            Some(m) => {
                let sl = max_v(a, m);
                match decimal_checked_mul(sl, int_dv(2)) {
                    None => None,
                    Some(tp) => Some((sl, tp)),
                }
            },
        },
    }
}

/// Stop below and target above the entry for a buy (and for wait); the
/// reverse for a sell.
pub open spec fn stops_spec(dir: Bias, entry: DecV, sl: DecV, tp: DecV) -> Option<(DecV, DecV)> {
    if dir == Bias::Sell {
        match (decimal_checked_add(entry, sl), decimal_checked_sub(entry, tp)) {
            (Some(a), Some(b)) => Some((a, b)),
            _ => None,
        }
    } else {
        match (decimal_checked_sub(entry, sl), decimal_checked_add(entry, tp)) {
            (Some(a), Some(b)) => Some((a, b)),
            _ => None,
        }
    }
}

/// Stop and target distances for a symbol.
pub fn distances(ind: &Indicators, symbol: &str) -> (r: Option<(Dec, Dec)>)
    requires
        ind.wf(),
    ensures
        match r {
            Some((a, b)) => distances_spec(*ind, symbol@) == Some((a@, b@)) && a.wf() && b.wf(),
            None => distances_spec(*ind, symbol@) is None,
        },
        series_get(ind.atr@, 14) matches Some(a) ==> match r {
            Some((sl, tp)) => {
                &&& sl@ == max_v(
                    a,
                    if "frx"@.is_prefix_of(symbol@) {
                        scaled_dv(20, 4)
                    } else {
                        int_dv(20)
                    },
                )
                &&& dv_wf(exact_product(sl@, int_dv(2))) ==> tp@ == exact_product(sl@, int_dv(2))
            },
            None => !dv_wf(
                exact_product(
                    max_v(
                        a,
                        if "frx"@.is_prefix_of(symbol@) {
                            scaled_dv(20, 4)
                        } else {
                            int_dv(20)
                        },
                    ),
                    int_dv(2),
                ),
            ),
        },
        series_get(ind.atr@, 14) is None && ind.price@.1 != 0 && dv_wf(exact_product(ind.price@, scaled_dv(5, 3)))
            ==> match r {
            Some((sl, tp)) => {
                &&& sl@ == max_v(
                    exact_product(ind.price@, scaled_dv(5, 3)),
                    if "frx"@.is_prefix_of(symbol@) {
                        scaled_dv(20, 4)
                    } else {
                        int_dv(20)
                    },
                )
                &&& dv_wf(exact_product(sl@, int_dv(2))) ==> tp@ == exact_product(sl@, int_dv(2))
            },
            None => !dv_wf(
                exact_product(
                    max_v(
                        exact_product(ind.price@, scaled_dv(5, 3)),
                        if "frx"@.is_prefix_of(symbol@) {
                            scaled_dv(20, 4)
                        } else {
                            int_dv(20)
                        },
                    ),
                    int_dv(2),
                ),
            ),
        },
{
    let atr = match Indicators::lookup(&ind.atr, 14) {
        Some(a) => a,
        None => ind.price.mul(&Dec::new(5, 3))?,
    };
    let pip = if starts_with(symbol, "frx") {
        Dec::new(1, 4)
    } else {
        Dec::one()
    };
    let twenty = Dec::from_i64(20);
    proof {
        assert(crate::decimal::dv_num(pip@) == 1);
        assert(crate::decimal::dv_num(twenty@) == 20);
        assert(pip@.2 <= 4 && twenty@.2 == 0);
        assert(exact_product(pip@, twenty@) == scaled_dv(20, pip@.2));
        assert(dv_wf(exact_product(pip@, twenty@)));
    }
    let m = pip.mul(&twenty)?;
    proof {
        assert(m@ == (if "frx"@.is_prefix_of(symbol@) {
            scaled_dv(20, 4)
        } else {
            int_dv(20)
        }));
    }
    let sl = atr.max(m);
    proof {
        assert(sl@.1 != 0) by {
            if !dv_lt(atr@, m@) {
                crate::decimal::lemma_pow10_positive(atr@.2);
                crate::decimal::lemma_pow10_positive(m@.2);
                assert(crate::decimal::dv_num(m@) == 20);
                assert(crate::decimal::dv_num(m@) * crate::decimal::pow10(atr@.2) > 0) by (nonlinear_arith)
                    requires
                        crate::decimal::dv_num(m@) == 20,
                        crate::decimal::pow10(atr@.2) >= 1,
                ;
                let na = crate::decimal::dv_num(atr@);
                assert(na * crate::decimal::pow10(m@.2) > 0);
                assert(na != 0) by (nonlinear_arith)
                    requires
                        na * crate::decimal::pow10(m@.2) > 0,
                ;
                assert(sl@ == atr@);
            }
        }
    }
    let tp = sl.mul(&Dec::from_i64(2))?;
    Some((sl, tp))
}

/// Stop-loss and take-profit levels around an entry.
pub fn stops(dir: Bias, entry: &Dec, sl: &Dec, tp: &Dec) -> (r: Option<(Dec, Dec)>)
    requires
        entry.wf(),
        sl.wf(),
        tp.wf(),
    ensures
        match r {
            Some((a, b)) => stops_spec(dir, entry@, sl@, tp@) == Some((a@, b@)) && a.wf() && b.wf(),
            None => stops_spec(dir, entry@, sl@, tp@) is None,
        },
        dir != Bias::Sell && dv_wf(exact_diff(entry@, sl@)) && dv_wf(exact_sum(entry@, tp@)) ==> (r matches Some(
            (a, b),
        ) && dv_eq(a@, exact_diff(entry@, sl@)) && dv_eq(b@, exact_sum(entry@, tp@))),
        dir == Bias::Sell && dv_wf(exact_sum(entry@, sl@)) && dv_wf(exact_diff(entry@, tp@)) ==> (r matches Some(
            (a, b),
        ) && dv_eq(a@, exact_sum(entry@, sl@)) && dv_eq(b@, exact_diff(entry@, tp@))),
{
    if dir == Bias::Sell {
        let a = entry.add(sl);
        let b = entry.sub(tp);
        match (a, b) {
            (Some(a), Some(b)) => Some((a, b)),
            _ => None,
        }
    } else {
        let a = entry.sub(sl);
        let b = entry.add(tp);
        match (a, b) {
            (Some(a), Some(b)) => Some((a, b)),
            _ => None,
        }
    }
}

} // verus!
