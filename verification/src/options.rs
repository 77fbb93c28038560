//! Trade options offered next to the decision: the dominant side's trend
//! continuation and the counter-trend reversal, never contradicting each
//! other.
use crate::decimal::{
    decimal_checked_add, decimal_checked_div, decimal_checked_mul, decimal_checked_sub, decimal_text, dv_lt, int_dv,
    round_dp_spec, Dec, DecV,
};
use crate::decision::Bias;
use crate::evidence::{bear_reversal, bull_reversal, Context};
use crate::exhaustion::{bear_reversal_confirmed, bull_reversal_confirmed};
use crate::indicators::Indicators;
use crate::reading::push_if;
use crate::text::{join, join_spec, string_eq, texts};
use vstd::prelude::*;

verus! {

/// One way to trade the reading.
#[derive(Clone, Debug)]
pub struct TradeOption {
    pub option_type: String,
    pub label: String,
    pub conviction: Dec,
    pub entry: Dec,
    pub stop_loss: Dec,
    pub take_profit: Dec,
    pub reasoning: String,
    pub supporting_evidence: Vec<String>,
    pub recommended: bool,
    pub risk_reward: String,
}

pub struct TradeOptionV {
    pub option_type: Seq<char>,
    pub label: Seq<char>,
    pub conviction: DecV,
    pub entry: DecV,
    pub stop_loss: DecV,
    pub take_profit: DecV,
    pub reasoning: Seq<char>,
    pub supporting: Seq<Seq<char>>,
    pub recommended: bool,
    pub risk_reward: Seq<char>,
}

impl View for TradeOption {
    type V = TradeOptionV;

    open spec fn view(&self) -> TradeOptionV {
        TradeOptionV {
            option_type: self.option_type@,
            label: self.label@,
            conviction: self.conviction@,
            entry: self.entry@,
            stop_loss: self.stop_loss@,
            take_profit: self.take_profit@,
            reasoning: self.reasoning@,
            supporting: texts(self.supporting_evidence@),
            recommended: self.recommended,
            risk_reward: self.risk_reward@,
        }
    }
}

// ---------------------------------------------------------------------------
// Supporting readings.
// ---------------------------------------------------------------------------
pub open spec fn macd_sign(ind: Indicators, positive: bool) -> bool {
    match ind.macd {
        Some(m) => if positive {
            dv_lt(int_dv(0), m@)
        } else {
            dv_lt(m@, int_dv(0))
        },
        None => false,
    }
}

/// What supports continuing up.
pub open spec fn bull_support(ind: Indicators) -> Seq<Seq<char>> {
    let s: Seq<Seq<char>> = Seq::empty();
    let s = push_if(s, dv_lt(ind.ema_or_price(200), ind.price@), "Price above EMA200"@);
    let s = push_if(s, dv_lt(ind.ema_or_price(50), ind.price@), "Price above EMA50"@);
    let s = push_if(s, macd_sign(ind, true), "MACD positive"@);
    let s = push_if(s, ind.has("bullish_engulfing"@), "bullish_engulfing"@);
    let s = push_if(s, ind.has("hammer"@), "hammer"@);
    let s = push_if(s, ind.has("morning_star"@), "morning_star"@);
    let s = push_if(s, ind.has("three_white_soldiers"@), "three_white_soldiers"@);
    let s = push_if(s, ind.has("resistance_breakout"@), "resistance breakout"@);
    push_if(s, ind.has("uptrend_structure"@), "higher highs + higher lows"@)
}

/// What supports continuing down.
pub open spec fn bear_support(ind: Indicators) -> Seq<Seq<char>> {
    let s: Seq<Seq<char>> = Seq::empty();
    let s = push_if(s, dv_lt(ind.price@, ind.ema_or_price(200)), "Price below EMA200"@);
    let s = push_if(s, dv_lt(ind.price@, ind.ema_or_price(50)), "Price below EMA50"@);
    let s = push_if(s, macd_sign(ind, false), "MACD negative"@);
    let s = push_if(s, ind.has("bearish_engulfing"@), "bearish_engulfing"@);
    let s = push_if(s, ind.has("shooting_star"@), "shooting_star"@);
    let s = push_if(s, ind.has("evening_star"@), "evening_star"@);
    let s = push_if(s, ind.has("three_black_crows"@), "three_black_crows"@);
    let s = push_if(s, ind.has("support_breakdown"@), "support breakdown"@);
    push_if(s, ind.has("downtrend_structure"@), "lower highs + lower lows"@)
}

/// What supports a reversal down from resistance.
pub open spec fn down_reversal_support(ind: Indicators, ctx: Context) -> Seq<Seq<char>> {
    let s: Seq<Seq<char>> = Seq::empty();
    let s = push_if(s, ctx.bear_rev, "bearish reversal candlestick"@);
    let s = push_if(
        s,
        ctx.at_resistance,
        "at resistance ("@ + decimal_text(round_dp_spec(ctx.prior_high@, 5)) + ")"@,
    );
    let s = push_if(s, ind.rsi_divergence@ == "bearish"@, "RSI bearish divergence"@);
    let s = push_if(
        s,
        dv_lt(int_dv(65), ctx.rsi@),
        "RSI overbought ("@ + decimal_text(round_dp_spec(ctx.rsi@, 1)) + ")"@,
    );
    push_if(s, ind.has("double_top"@), "double top"@)
}

/// What supports a bounce up from support.
pub open spec fn up_reversal_support(ind: Indicators, ctx: Context) -> Seq<Seq<char>> {
    let s: Seq<Seq<char>> = Seq::empty();
    let s = push_if(s, ctx.bull_rev, "bullish reversal candlestick"@);
    let s = push_if(s, ctx.at_support, "at support ("@ + decimal_text(round_dp_spec(ctx.prior_low@, 5)) + ")"@);
    let s = push_if(s, ind.rsi_divergence@ == "bullish"@, "RSI bullish divergence"@);
    let s = push_if(
        s,
        dv_lt(ctx.rsi@, int_dv(35)),
        "RSI oversold ("@ + decimal_text(round_dp_spec(ctx.rsi@, 1)) + ")"@,
    );
    push_if(s, ind.has("double_bottom"@), "double bottom"@)
}

pub open spec fn supports_text(s: Seq<Seq<char>>) -> Seq<char> {
    if s.len() == 0 {
        "none"@
    } else {
        join_spec(s, ", "@)
    }
}

// ---------------------------------------------------------------------------
// The two options.
// ---------------------------------------------------------------------------
/// Entry and levels rounded to 6 decimals: `up` puts the stop below and the
/// target above the entry.
pub open spec fn levels6(entry: DecV, sl: DecV, tp: DecV, up: bool) -> Option<(DecV, DecV)> {
    let s = if up {
        decimal_checked_sub(entry, sl)
    } else {
        decimal_checked_add(entry, sl)
    };
    let t = if up {
        decimal_checked_add(entry, tp)
    } else {
        decimal_checked_sub(entry, tp)
    };
    match (s, t) {
        (Some(a), Some(b)) => Some((round_dp_spec(a, 6), round_dp_spec(b, 6))),
        _ => None,
    }
}

/// Share of the evidence on one side (0 without evidence).
pub open spec fn share(side: DecV, total: DecV) -> Option<DecV> {
    if dv_lt(int_dv(0), total) {
        decimal_checked_div(side, total)
    } else {
        Some(int_dv(0))
    }
}

/// Reversal conviction: signal count / 7 when confirmed, else 0.
pub open spec fn reversal_conviction(confirmed: bool, count: nat) -> Option<DecV> {
    if confirmed {
        decimal_checked_div(int_dv(count as int), int_dv(7))
    } else {
        Some(int_dv(0))
    }
}

pub open spec fn trend_option_spec(
    up: bool,
    pct: DecV,
    dir: Bias,
    support: Seq<Seq<char>>,
    entry: DecV,
    sl: DecV,
    tp: DecV,
) -> Option<TradeOptionV> {
    match (levels6(entry, sl, tp, up), decimal_checked_mul(pct, int_dv(100))) {
        (Some((s, t)), Some(p100)) => Some(
            TradeOptionV {
                option_type: if up {
                    "buy"@
                } else {
                    "sell"@
                },
                label: if up {
                    "BUY — Trend Continuation Up"@
                } else {
                    "SELL — Trend Continuation Down"@
                },
                conviction: round_dp_spec(pct, 4),
                entry: round_dp_spec(entry, 6),
                stop_loss: s,
                take_profit: t,
                reasoning: (if up {
                    "Bullish evidence: "@
                } else {
                    "Bearish evidence: "@
                }) + decimal_text(p100) + "%. Supports: "@ + supports_text(support) + "."@,
                supporting: support,
                recommended: if up {
                    dir == Bias::Buy
                } else {
                    dir == Bias::Sell
                },
                risk_reward: "1:2"@,
            },
        ),
        _ => None,
    }
}

/// `down` is the reversal down from resistance (stop above the entry).
pub open spec fn reversal_option_spec(
    down: bool,
    conv: DecV,
    count: nat,
    confirmed: bool,
    dir: Bias,
    support: Seq<Seq<char>>,
    entry: DecV,
    sl: DecV,
    tp: DecV,
) -> Option<TradeOptionV> {
    match levels6(entry, sl, tp, !down) {
        Some((s, t)) => Some(
            TradeOptionV {
                option_type: if down {
                    "reversal_down"@
                } else {
                    "reversal_up"@
                },
                label: if down {
                    "REVERSAL DOWN — Rejection from Resistance (counter-trend)"@
                } else {
                    "REVERSAL UP — Bounce from Support (counter-trend)"@
                },
                conviction: round_dp_spec(conv, 4),
                entry: round_dp_spec(entry, 6),
                stop_loss: s,
                take_profit: t,
                reasoning: (if down {
                    "Bearish reversal: "@
                } else {
                    "Bullish reversal: "@
                }) + crate::text::nat_text(count) + " signals. Supports: "@ + supports_text(support) + "."@,
                supporting: support,
                recommended: if down {
                    dir == Bias::Sell && confirmed
                } else {
                    dir == Bias::Buy && confirmed
                },
                risk_reward: "1:2"@,
            },
        ),
        None => None,
    }
}

pub open spec fn up_branch(
    dir: Bias,
    bull: DecV,
    total: DecV,
    ind: Indicators,
    ctx: Context,
    entry: DecV,
    sl: DecV,
    tp: DecV,
) -> Option<Seq<TradeOptionV>> {
    match (share(bull, total), reversal_conviction(bear_reversal_confirmed(ctx), ctx.bear_rev_count as nat)) {
        (Some(pct), Some(rc)) => match (
            trend_option_spec(true, pct, dir, bull_support(ind), entry, sl, tp),
            reversal_option_spec(
                true,
                rc,
                ctx.bear_rev_count as nat,
                bear_reversal_confirmed(ctx),
                dir,
                down_reversal_support(ind, ctx),
                entry,
                sl,
                tp,
            ),
        ) {
            (Some(a), Some(b)) => Some(seq![a, b]),
            _ => None,
        },
        _ => None,
    }
}

pub open spec fn down_branch(
    dir: Bias,
    bear: DecV,
    total: DecV,
    ind: Indicators,
    ctx: Context,
    entry: DecV,
    sl: DecV,
    tp: DecV,
) -> Option<Seq<TradeOptionV>> {
    match (share(bear, total), reversal_conviction(bull_reversal_confirmed(ctx), ctx.bull_rev_count as nat)) {
        (Some(pct), Some(rc)) => match (
            trend_option_spec(false, pct, dir, bear_support(ind), entry, sl, tp),
            reversal_option_spec(
                false,
                rc,
                ctx.bull_rev_count as nat,
                bull_reversal_confirmed(ctx),
                dir,
                up_reversal_support(ind, ctx),
                entry,
                sl,
                tp,
            ),
        ) {
            (Some(a), Some(b)) => Some(seq![a, b]),
            _ => None,
        },
        _ => None,
    }
}

/// With more bullish than bearish weight: buy continuation and reversal
/// down; with more bearish: sell continuation and reversal up; on a tie no
/// option.  `None` on arithmetic overflow.
pub open spec fn options_spec(
    dir: Bias,
    bull: DecV,
    bear: DecV,
    ind: Indicators,
    ctx: Context,
    entry: DecV,
    sl: DecV,
    tp: DecV,
) -> Option<Seq<TradeOptionV>> {
    match decimal_checked_add(bull, bear) {
        None => None,
        Some(total) => if dv_lt(bear, bull) {
            up_branch(dir, bull, total, ind, ctx, entry, sl, tp)
        } else if dv_lt(bull, bear) {
            down_branch(dir, bear, total, ind, ctx, entry, sl, tp)
        } else {
            Some(Seq::empty())
        },
    }
}

pub open spec fn option_views(v: Seq<TradeOption>) -> Seq<TradeOptionV> {
    v.map_values(|o: TradeOption| o@)
}

// ---------------------------------------------------------------------------
// Exec.
// ---------------------------------------------------------------------------
fn push_when(v: &mut Vec<String>, c: bool, x: String)
    ensures
        texts(final(v)@) == push_if(texts(old(v)@), c, x@),
{
    if c {
        let ghost before = v@;
        v.push(x);
        assert(texts(v@) =~= texts(before).push(x@));
    }
}

fn lit(s: &str) -> (r: String)
    ensures
        r@ == s@,
{
    String::from_str(s)
}

fn has_macd_sign(ind: &Indicators, positive: bool) -> (r: bool)
    requires
        ind.wf(),
    ensures
        r == macd_sign(*ind, positive),
{
    match ind.macd {
        Some(m) => if positive {
            Dec::zero().lt(&m)
        } else {
            m.lt(&Dec::zero())
        },
        None => false,
    }
}

fn bull_support_exec(ind: &Indicators) -> (r: Vec<String>)
    requires
        ind.wf(),
    ensures
        texts(r@) == bull_support(*ind),
{
    let mut v: Vec<String> = Vec::new();
    assert(texts(v@) =~= Seq::<Seq<char>>::empty());
    push_when(&mut v, ind.ema_or(200).lt(&ind.price), lit("Price above EMA200"));
    push_when(&mut v, ind.ema_or(50).lt(&ind.price), lit("Price above EMA50"));
    push_when(&mut v, has_macd_sign(ind, true), lit("MACD positive"));
    push_when(&mut v, ind.has_pattern("bullish_engulfing"), lit("bullish_engulfing"));
    push_when(&mut v, ind.has_pattern("hammer"), lit("hammer"));
    push_when(&mut v, ind.has_pattern("morning_star"), lit("morning_star"));
    push_when(&mut v, ind.has_pattern("three_white_soldiers"), lit("three_white_soldiers"));
    push_when(&mut v, ind.has_pattern("resistance_breakout"), lit("resistance breakout"));
    push_when(&mut v, ind.has_pattern("uptrend_structure"), lit("higher highs + higher lows"));
    v
}

fn bear_support_exec(ind: &Indicators) -> (r: Vec<String>)
    requires
        ind.wf(),
    ensures
        texts(r@) == bear_support(*ind),
{
    let mut v: Vec<String> = Vec::new();
    assert(texts(v@) =~= Seq::<Seq<char>>::empty());
    push_when(&mut v, ind.price.lt(&ind.ema_or(200)), lit("Price below EMA200"));
    push_when(&mut v, ind.price.lt(&ind.ema_or(50)), lit("Price below EMA50"));
    push_when(&mut v, has_macd_sign(ind, false), lit("MACD negative"));
    push_when(&mut v, ind.has_pattern("bearish_engulfing"), lit("bearish_engulfing"));
    push_when(&mut v, ind.has_pattern("shooting_star"), lit("shooting_star"));
    push_when(&mut v, ind.has_pattern("evening_star"), lit("evening_star"));
    push_when(&mut v, ind.has_pattern("three_black_crows"), lit("three_black_crows"));
    push_when(&mut v, ind.has_pattern("support_breakdown"), lit("support breakdown"));
    push_when(&mut v, ind.has_pattern("downtrend_structure"), lit("lower highs + lower lows"));
    v
}

fn level_text(prefix: &str, d: &Dec) -> (r: String)
    requires
        d.wf(),
    ensures
        r@ == prefix@ + decimal_text(d@) + ")"@,
{
    let mut s = String::from_str(prefix);
    s.append(d.to_text().as_str());
    s.append(")");
    s
}

fn down_support_exec(ind: &Indicators, ctx: &Context) -> (r: Vec<String>)
    requires
        ind.wf(),
        ctx.wf(),
    ensures
        texts(r@) == down_reversal_support(*ind, *ctx),
{
    let mut v: Vec<String> = Vec::new();
    assert(texts(v@) =~= Seq::<Seq<char>>::empty());
    push_when(&mut v, ctx.bear_rev, lit("bearish reversal candlestick"));
    push_when(&mut v, ctx.at_resistance, level_text("at resistance (", &ctx.prior_high.round_dp(5)));
    push_when(&mut v, string_eq(&ind.rsi_divergence, "bearish"), lit("RSI bearish divergence"));
    push_when(&mut v, ctx.rsi.gt(&Dec::from_i64(65)), level_text("RSI overbought (", &ctx.rsi.round_dp(1)));
    push_when(&mut v, ind.has_pattern("double_top"), lit("double top"));
    v
}

fn up_support_exec(ind: &Indicators, ctx: &Context) -> (r: Vec<String>)
    requires
        ind.wf(),
        ctx.wf(),
    ensures
        texts(r@) == up_reversal_support(*ind, *ctx),
{
    let mut v: Vec<String> = Vec::new();
    assert(texts(v@) =~= Seq::<Seq<char>>::empty());
    push_when(&mut v, ctx.bull_rev, lit("bullish reversal candlestick"));
    push_when(&mut v, ctx.at_support, level_text("at support (", &ctx.prior_low.round_dp(5)));
    push_when(&mut v, string_eq(&ind.rsi_divergence, "bullish"), lit("RSI bullish divergence"));
    push_when(&mut v, ctx.rsi.lt(&Dec::from_i64(35)), level_text("RSI oversold (", &ctx.rsi.round_dp(1)));
    push_when(&mut v, ind.has_pattern("double_bottom"), lit("double bottom"));
    v
}

fn supports_exec(v: &Vec<String>) -> (r: String)
    ensures
        r@ == supports_text(texts(v@)),
{
    if v.len() == 0 {
        String::from_str("none")
    } else {
        join(v, ", ")
    }
}

fn levels6_exec(entry: &Dec, sl: &Dec, tp: &Dec, up: bool) -> (r: Option<(Dec, Dec)>)
    requires
        entry.wf(),
        sl.wf(),
        tp.wf(),
    ensures
        match r {
            Some((a, b)) => levels6(entry@, sl@, tp@, up) == Some((a@, b@)) && a.wf() && b.wf(),
            None => levels6(entry@, sl@, tp@, up) is None,
        },
{
    let s = if up {
        entry.sub(sl)
    } else {
        entry.add(sl)
    };
    let t = if up {
        entry.add(tp)
    } else {
        entry.sub(tp)
    };
    match (s, t) {
        (Some(a), Some(b)) => Some((a.round_dp(6), b.round_dp(6))),
        _ => None,
    }
}

fn trend_option(up: bool, pct: &Dec, dir: Bias, support: Vec<String>, entry: &Dec, sl: &Dec, tp: &Dec) -> (r: Option<
    TradeOption,
>)
    requires
        pct.wf(),
        entry.wf(),
        sl.wf(),
        tp.wf(),
    ensures
        match r {
            Some(o) => trend_option_spec(up, pct@, dir, texts(support@), entry@, sl@, tp@) == Some(o@),
            None => trend_option_spec(up, pct@, dir, texts(support@), entry@, sl@, tp@) is None,
        },
{
    let lv = levels6_exec(entry, sl, tp, up);
    let p100 = pct.mul(&Dec::from_i64(100));
    let (s, t) = match lv {
        Some(x) => x,
        None => {
            return None;
        },
    };
    let p100 = match p100 {
        Some(p) => p,
        None => {
            return None;
        },
    };
    let mut reasoning = if up {
        String::from_str("Bullish evidence: ")
    } else {
        String::from_str("Bearish evidence: ")
    };
    reasoning.append(p100.to_text().as_str());
    reasoning.append("%. Supports: ");
    reasoning.append(supports_exec(&support).as_str());
    reasoning.append(".");
    let o = TradeOption {
        option_type: if up {
            lit("buy")
        } else {
            lit("sell")
        },
        label: if up {
            lit("BUY — Trend Continuation Up")
        } else {
            lit("SELL — Trend Continuation Down")
        },
        conviction: pct.round_dp(4),
        entry: entry.round_dp(6),
        stop_loss: s,
        take_profit: t,
        reasoning,
        supporting_evidence: support,
        recommended: if up {
            dir == Bias::Buy
        } else {
            dir == Bias::Sell
        },
        risk_reward: lit("1:2"),
    };
    Some(o)
}

fn reversal_option(
    down: bool,
    conv: &Dec,
    count: u32,
    confirmed: bool,
    dir: Bias,
    support: Vec<String>,
    entry: &Dec,
    sl: &Dec,
    tp: &Dec,
) -> (r: Option<TradeOption>)
    requires
        conv.wf(),
        entry.wf(),
        sl.wf(),
        tp.wf(),
    ensures
        match r {
            Some(o) => reversal_option_spec(
                down,
                conv@,
                count as nat,
                confirmed,
                dir,
                texts(support@),
                entry@,
                sl@,
                tp@,
            ) == Some(o@),
            None => reversal_option_spec(
                down,
                conv@,
                count as nat,
                confirmed,
                dir,
                texts(support@),
                entry@,
                sl@,
                tp@,
            ) is None,
        },
{
    let (s, t) = match levels6_exec(entry, sl, tp, !down) {
        Some(x) => x,
        None => {
            return None;
        },
    };
    let mut reasoning = if down {
        String::from_str("Bearish reversal: ")
    } else {
        String::from_str("Bullish reversal: ")
    };
    reasoning.append(crate::text::u64_text(count as u64).as_str());
    reasoning.append(" signals. Supports: ");
    reasoning.append(supports_exec(&support).as_str());
    reasoning.append(".");
    let o = TradeOption {
        option_type: if down {
            lit("reversal_down")
        } else {
            lit("reversal_up")
        },
        label: if down {
            lit("REVERSAL DOWN — Rejection from Resistance (counter-trend)")
        } else {
            lit("REVERSAL UP — Bounce from Support (counter-trend)")
        },
        conviction: conv.round_dp(4),
        entry: entry.round_dp(6),
        stop_loss: s,
        take_profit: t,
        reasoning,
        supporting_evidence: support,
        recommended: if down {
            dir == Bias::Sell && confirmed
        } else {
            dir == Bias::Buy && confirmed
        },
        risk_reward: lit("1:2"),
    };
    Some(o)
}

fn share_exec(side: &Dec, total: &Dec) -> (r: Option<Dec>)
    requires
        side.wf(),
        total.wf(),
    ensures
        crate::conditions::opt_dec(r) == share(side@, total@),
        r matches Some(x) ==> x.wf(),
{
    if Dec::zero().lt(total) {
        side.div(total)
    } else {
        Some(Dec::zero())
    }
}

fn reversal_conviction_exec(confirmed: bool, count: u32) -> (r: Option<Dec>)
    ensures
        crate::conditions::opt_dec(r) == reversal_conviction(confirmed, count as nat),
        r matches Some(x) ==> x.wf(),
{
    if confirmed {
        Dec::from_u64(count as u64).div(&Dec::from_i64(7))
    } else {
        Some(Dec::zero())
    }
}

fn up_options(
    dir: Bias,
    bull: &Dec,
    total: &Dec,
    ind: &Indicators,
    ctx: &Context,
    entry: &Dec,
    sl: &Dec,
    tp: &Dec,
) -> (r: Option<Vec<TradeOption>>)
    requires
        bull.wf(),
        total.wf(),
        ind.wf(),
        ctx.wf(),
        entry.wf(),
        sl.wf(),
        tp.wf(),
    ensures
        match r {
            Some(v) => up_branch(dir, bull@, total@, *ind, *ctx, entry@, sl@, tp@) == Some(option_views(v@)),
            None => up_branch(dir, bull@, total@, *ind, *ctx, entry@, sl@, tp@) is None,
        },
{
    let pct = share_exec(bull, total);
    let confirmed = ctx.bear_rev && ctx.bear_rev_count >= 2;
    let rc = reversal_conviction_exec(confirmed, ctx.bear_rev_count);
    let (pct, rc) = match (pct, rc) {
        (Some(p), Some(r)) => (p, r),
        _ => {
            return None;
        },
    };
    let a = trend_option(true, &pct, dir, bull_support_exec(ind), entry, sl, tp);
    let b = reversal_option(true, &rc, ctx.bear_rev_count, confirmed, dir, down_support_exec(ind, ctx), entry, sl, tp);
    match (a, b) {
        (Some(a), Some(b)) => {
            let mut out: Vec<TradeOption> = Vec::new();
            out.push(a);
            out.push(b);
            assert(option_views(out@) =~= up_branch(dir, bull@, total@, *ind, *ctx, entry@, sl@, tp@).unwrap());
            Some(out)
        },
        _ => None,
    }
}

fn down_options(
    dir: Bias,
    bear: &Dec,
    total: &Dec,
    ind: &Indicators,
    ctx: &Context,
    entry: &Dec,
    sl: &Dec,
    tp: &Dec,
) -> (r: Option<Vec<TradeOption>>)
    requires
        bear.wf(),
        total.wf(),
        ind.wf(),
        ctx.wf(),
        entry.wf(),
        sl.wf(),
        tp.wf(),
    ensures
        match r {
            Some(v) => down_branch(dir, bear@, total@, *ind, *ctx, entry@, sl@, tp@) == Some(option_views(v@)),
            None => down_branch(dir, bear@, total@, *ind, *ctx, entry@, sl@, tp@) is None,
        },
{
    let pct = share_exec(bear, total);
    let confirmed = ctx.bull_rev && ctx.bull_rev_count >= 2;
    let rc = reversal_conviction_exec(confirmed, ctx.bull_rev_count);
    let (pct, rc) = match (pct, rc) {
        (Some(p), Some(r)) => (p, r),
        _ => {
            return None;
        },
    };
    let a = trend_option(false, &pct, dir, bear_support_exec(ind), entry, sl, tp);
    let b = reversal_option(false, &rc, ctx.bull_rev_count, confirmed, dir, up_support_exec(ind, ctx), entry, sl, tp);
    match (a, b) {
        (Some(a), Some(b)) => {
            let mut out: Vec<TradeOption> = Vec::new();
            out.push(a);
            out.push(b);
            assert(option_views(out@) =~= down_branch(dir, bear@, total@, *ind, *ctx, entry@, sl@, tp@).unwrap());
            Some(out)
        },
        _ => None,
    }
}

/// The trade options for a reading.
pub fn trade_options(
    dir: Bias,
    bull: &Dec,
    bear: &Dec,
    ind: &Indicators,
    ctx: &Context,
    entry: &Dec,
    sl: &Dec,
    tp: &Dec,
) -> (r: Option<Vec<TradeOption>>)
    requires
        bull.wf(),
        bear.wf(),
        ind.wf(),
        ctx.wf(),
        entry.wf(),
        sl.wf(),
        tp.wf(),
    ensures
        match r {
            Some(v) => options_spec(dir, bull@, bear@, *ind, *ctx, entry@, sl@, tp@) == Some(option_views(v@)),
            None => options_spec(dir, bull@, bear@, *ind, *ctx, entry@, sl@, tp@) is None,
        },
{
    let total = bull.add(bear)?;
    if bear.lt(bull) {
        up_options(dir, bull, &total, ind, ctx, entry, sl, tp)
    } else if bull.lt(bear) {
        down_options(dir, bear, &total, ind, ctx, entry, sl, tp)
    } else {
        let out: Vec<TradeOption> = Vec::new();
        assert(option_views(out@) =~= Seq::<TradeOptionV>::empty());
        Some(out)
    }
}

} // verus!
