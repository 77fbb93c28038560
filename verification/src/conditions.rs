//! Conditions around the chart: trading session, higher timeframes, news,
//! and the user's note rules that fired.
use crate::decimal::{decimal_checked_div, decimal_checked_mul, int_dv, scaled_dv, Dec, DecV};
use crate::domain::Rule;
use crate::evidence::{ev, note, opt_tally, with_ev, with_scores, Lean, Tally, TallyV};
use crate::news::NewsAssessment;
use crate::reading::{hour_of, session_quality, session_quality_spec};
use crate::text::{contains, has_infix, nat_text, str_eq, string_eq, text_lower, to_lower, u64_text};
use vstd::prelude::*;

verus! {

/// `x * f / 10`, as the decimal crate computes it.
pub open spec fn scale_down(x: DecV, f: DecV) -> Option<DecV> {
    match decimal_checked_mul(x, f) {
        Some(m) => decimal_checked_div(m, int_dv(10)),
        None => None,
    }
}

/// Both scores multiplied by `f / 10`.
pub open spec fn scale_scores(t: TallyV, f: DecV) -> Option<TallyV> {
    match scale_down(t.bull, f) {
        Some(b) => match scale_down(t.bear, f) {
            Some(e) => Some(with_scores(t, b, e)),
            None => None,
        },
        None => None,
    }
}

fn scale_down_exec(x: &Dec, f: &Dec) -> (r: Option<Dec>)
    requires
        x.wf(),
        f.wf(),
    ensures
        opt_dec(r) == scale_down(x@, f@),
        r matches Some(v) ==> v.wf(),
{
    let m = x.mul(f)?;
    m.div(&Dec::from_i64(10))
}

pub open spec fn opt_dec(o: Option<Dec>) -> Option<DecV> {
    match o {
        Some(d) => Some(d@),
        None => None,
    }
}

fn scale_scores_exec(t: Tally, f: &Dec) -> (r: Option<Tally>)
    requires
        t.wf(),
        f.wf(),
    ensures
        opt_tally(r) == scale_scores(t@, f@),
        r matches Some(x) ==> x.wf(),
{
    let b = scale_down_exec(&t.bull, f)?;
    let e = scale_down_exec(&t.bear, f)?;
    let mut t = t;
    t.bull = b;
    t.bear = e;
    Some(t)
}

// ---------------------------------------------------------------------------
// Session.
// ---------------------------------------------------------------------------
/// The session's reason is recorded; off-hours (quality 0) multiplies both
/// scores by 0.6 / 10.
pub open spec fn session_stage(t: TallyV, now_ts: int) -> Option<TallyV> {
    let (q, label) = session_quality_spec(hour_of(now_ts));
    let t1 = with_ev(t, ev("session"@, label, Lean::Neutral, int_dv(0)));
    if q == 0 {
        scale_scores(t1, scaled_dv(6, 1))
    } else {
        Some(t1)
    }
}

/// Records the session quality and dampens both scores off-hours.
pub fn session_fact(t: Tally, now_ts: i64) -> (r: Option<Tally>)
    requires
        t.wf(),
    ensures
        opt_tally(r) == session_stage(t@, now_ts as int),
        r matches Some(x) ==> x.wf(),
{
    let (q, label) = session_quality(now_ts);
    let mut t = t;
    t.record("session", label, Lean::Neutral, Dec::zero());
    if q.is_zero() {
        scale_scores_exec(t, &Dec::new(6, 1))
    } else {
        Some(t)
    }
}

// ---------------------------------------------------------------------------
// Higher timeframes.
// ---------------------------------------------------------------------------
/// A majority of higher timeframes votes for its side with weight 3.
pub open spec fn upper_stage(t: TallyV, ub: nat, ue: nat) -> Option<TallyV> {
    if ub > ue && ub > 0 {
        note(
            t,
            "upper_tf"@,
            "Upper timeframes: "@ + nat_text(ub) + "/"@ + nat_text(ub + ue) + " bullish. Macro trend agrees with BUY."@,
            Lean::Buy,
            int_dv(3),
        )
    } else if ue > ub && ue > 0 {
        note(
            t,
            "upper_tf"@,
            "Upper timeframes: "@ + nat_text(ue) + "/"@ + nat_text(ub + ue)
                + " bearish. Macro trend agrees with SELL."@,
            Lean::Sell,
            int_dv(3),
        )
    } else {
        Some(t)
    }
}

/// Records the higher-timeframe vote.
pub fn upper_fact(t: Tally, ub: u32, ue: u32) -> (r: Option<Tally>)
    requires
        t.wf(),
    ensures
        opt_tally(r) == upper_stage(t@, ub as nat, ue as nat),
        r matches Some(x) ==> x.wf(),
{
    let total: u64 = ub as u64 + ue as u64;
    if ub > ue && ub > 0 {
        let mut f = String::from_str("Upper timeframes: ");
        f.append(u64_text(ub as u64).as_str());
        f.append("/");
        f.append(u64_text(total).as_str());
        f.append(" bullish. Macro trend agrees with BUY.");
        t.note("upper_tf", f, Lean::Buy, Dec::from_i64(3))
    } else if ue > ub && ue > 0 {
        let mut f = String::from_str("Upper timeframes: ");
        f.append(u64_text(ue as u64).as_str());
        f.append("/");
        f.append(u64_text(total).as_str());
        f.append(" bearish. Macro trend agrees with SELL.");
        t.note("upper_tf", f, Lean::Sell, Dec::from_i64(3))
    } else {
        Some(t)
    }
}

// ---------------------------------------------------------------------------
// News.
// ---------------------------------------------------------------------------
/// "danger" records the summary and recommendation and multiplies both
/// scores by 0.8 / 10; "caution" records the summary; otherwise the news is
/// recorded as clear.
pub open spec fn news_stage(t: TallyV, n: NewsAssessment) -> Option<TallyV> {
    if n.status@ == "danger"@ {
        scale_scores(
            with_ev(t, ev("news"@, n.summary@ + " "@ + n.recommendation@, Lean::Neutral, int_dv(0))),
            scaled_dv(8, 1),
        )
    } else if n.status@ == "caution"@ {
        Some(with_ev(t, ev("news"@, n.summary@, Lean::Neutral, int_dv(0))))
    } else {
        Some(with_ev(t, ev("news"@, "No high-impact news in next 30 min."@, Lean::Neutral, int_dv(0))))
    }
}

/// Records the news risk and dampens both scores when it is high.
pub fn news_fact(t: Tally, n: &NewsAssessment) -> (r: Option<Tally>)
    requires
        t.wf(),
    ensures
        opt_tally(r) == news_stage(t@, *n),
        r matches Some(x) ==> x.wf(),
{
    let mut t = t;
    if string_eq(&n.status, "danger") {
        let mut f = n.summary.clone();
        f.append(" ");
        f.append(n.recommendation.as_str());
        t.record("news", f, Lean::Neutral, Dec::zero());
        scale_scores_exec(t, &Dec::new(8, 1))
    } else if string_eq(&n.status, "caution") {
        t.record("news", n.summary.clone(), Lean::Neutral, Dec::zero());
        Some(t)
    } else {
        t.record("news", String::from_str("No high-impact news in next 30 min."), Lean::Neutral, Dec::zero());
        Some(t)
    }
}

// ---------------------------------------------------------------------------
// Note rules.
// ---------------------------------------------------------------------------
/// An enabled strategy built from the user's notes, with its rules and, for
/// each rule, whether its expression evaluated to true on the indicators.
#[derive(Clone, Debug)]
pub struct NoteStrategy {
    pub name: String,
    pub symbols: Vec<String>,
    pub rules: Vec<Rule>,
    pub fired: Vec<bool>,
}

/// The strategy covers the symbol: no symbols listed, or one of them equals
/// or occurs in the symbol.
pub open spec fn strategy_applies(symbol: Seq<char>, s: NoteStrategy) -> bool {
    s.symbols@.len() == 0 || exists|i: int|
        0 <= i < s.symbols@.len() && (#[trigger] s.symbols@[i]@ == symbol || has_infix(symbol, s.symbols@[i]@))
}

pub open spec fn rule_fires(s: NoteStrategy, k: int) -> bool {
    s.rules@[k].enabled && k < s.fired@.len() && s.fired@[k]
}

/// A rule whose lower-cased expression mentions bearish, short, overbought,
/// "> 65" or "> 70" confirms a sell; any other confirms a buy.
pub open spec fn is_bear_expr(expr: Seq<char>) -> bool {
    let l = text_lower(expr);
    has_infix(l, "bearish"@) || has_infix(l, "short"@) || has_infix(l, "overbought"@) || has_infix(l, "> 65"@)
        || has_infix(l, "> 70"@)
}

pub open spec fn rule_note(t: TallyV, s: NoteStrategy, k: int) -> Option<TallyV> {
    if rule_fires(s, k) {
        let r = s.rules@[k];
        let c = if is_bear_expr(r.expr@) {
            Lean::Sell
        } else {
            Lean::Buy
        };
        note(
            t,
            "note"@,
            "Rule '"@ + r.name@ + "' from note '"@ + s.name@ + "' is TRUE. Expression: "@ + r.expr@ + "."@,
            c,
            r.weight@,
        )
    } else {
        Some(t)
    }
}

/// The first `k` rules of a strategy, in order.
pub open spec fn rules_fold(t: Option<TallyV>, s: NoteStrategy, k: nat) -> Option<TallyV>
    decreases k,
{
    if k == 0 {
        t
    } else {
        match rules_fold(t, s, (k - 1) as nat) {
            Some(t2) => rule_note(t2, s, k - 1),
            None => None,
        }
    }
}

/// Every applicable strategy, in order.
pub open spec fn strategies_fold(t: Option<TallyV>, symbol: Seq<char>, ss: Seq<NoteStrategy>) -> Option<TallyV>
    decreases ss.len(),
{
    if ss.len() == 0 {
        t
    } else {
        let prev = strategies_fold(t, symbol, ss.drop_last());
        if strategy_applies(symbol, ss.last()) {
            rules_fold(prev, ss.last(), ss.last().rules@.len())
        } else {
            prev
        }
    }
}

pub open spec fn rules_wf(s: Seq<Rule>) -> bool {
    forall|i: int| 0 <= i < s.len() ==> (#[trigger] s[i]).weight.wf()
}

pub open spec fn note_strategies_wf(ss: Seq<NoteStrategy>) -> bool {
    forall|i: int| 0 <= i < ss.len() ==> rules_wf((#[trigger] ss[i]).rules@)
}

fn applies(symbol: &str, s: &NoteStrategy) -> (r: bool)
    ensures
        r == strategy_applies(symbol@, *s),
{
    let n = s.symbols.len();
    if n == 0 {
        return true;
    }
    let mut i: usize = 0;
    while i < n
        invariant
            n == s.symbols@.len(),
            i <= n,
            forall|j: int|
                0 <= j < i ==> !(#[trigger] s.symbols@[j]@ == symbol@ || has_infix(symbol@, s.symbols@[j]@)),
        decreases n - i,
    {
        if str_eq(s.symbols[i].as_str(), symbol) || contains(symbol, s.symbols[i].as_str()) {
            return true;
        }
        i = i + 1;
    }
    false
}

fn rule_note_exec(t: Tally, s: &NoteStrategy, k: usize) -> (r: Option<Tally>)
    requires
        t.wf(),
        k < s.rules@.len(),
        rules_wf(s.rules@),
    ensures
        opt_tally(r) == rule_note(t@, *s, k as int),
        r matches Some(x) ==> x.wf(),
{
    let rule = &s.rules[k];
    let fired = k < s.fired.len() && s.fired[k];
    if !(rule.enabled && fired) {
        return Some(t);
    }
    let l = to_lower(rule.expr.as_str());
    let ls = l.as_str();
    let bear = contains(ls, "bearish") || contains(ls, "short") || contains(ls, "overbought") || contains(ls, "> 65")
        || contains(ls, "> 70");
    let c = if bear {
        Lean::Sell
    } else {
        Lean::Buy
    };
    let mut f = String::from_str("Rule '");
    f.append(rule.name.as_str());
    f.append("' from note '");
    f.append(s.name.as_str());
    f.append("' is TRUE. Expression: ");
    f.append(rule.expr.as_str());
    f.append(".");
    assert(s.rules@[k as int] == *rule);
    t.note("note", f, c, rule.weight)
}

/// Records every rule that fired in a strategy that covers the symbol; the
/// rule's weight goes to the side its expression names.
pub fn notes_fact(t: Tally, symbol: &str, strategies: &Vec<NoteStrategy>) -> (r: Option<Tally>)
    requires
        t.wf(),
        note_strategies_wf(strategies@),
    ensures
        opt_tally(r) == strategies_fold(Some(t@), symbol@, strategies@),
        r matches Some(x) ==> x.wf(),
{
    let ghost t0 = t@;
    let mut cur: Option<Tally> = Some(t);
    let mut i: usize = 0;
    while i < strategies.len()
        invariant
            i <= strategies.len(),
            note_strategies_wf(strategies@),
            opt_tally(cur) == strategies_fold(Some(t0), symbol@, strategies@.take(i as int)),
            cur matches Some(x) ==> x.wf(),
        decreases strategies.len() - i,
    {
        let s = &strategies[i];
        assert(strategies@.take(i + 1).drop_last() =~= strategies@.take(i as int));
        assert(strategies@.take(i + 1).last() == strategies@[i as int]);
        assert(rules_wf(strategies@[i as int].rules@));
        if applies(symbol, s) {
            let ghost prev = opt_tally(cur);
            let mut k: usize = 0;
            while k < s.rules.len()
                invariant
                    k <= s.rules@.len(),
                    rules_wf(s.rules@),
                    opt_tally(cur) == rules_fold(prev, *s, k as nat),
                    cur matches Some(x) ==> x.wf(),
                decreases s.rules.len() - k,
            {
                cur = match cur {
                    None => None,
                    Some(t) => rule_note_exec(t, s, k),
                };
                k = k + 1;
            }
        }
        i = i + 1;
    }
    assert(strategies@.take(strategies.len() as int) =~= strategies@);
    cur
}

} // verus!
