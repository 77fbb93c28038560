//! The written market reading and the prompt / answer format of the
//! forecasting model that may add an insight to it.
use crate::decimal::{
    abs_v, decimal_checked_add, decimal_checked_div, decimal_checked_mul, decimal_checked_sub, decimal_text,
    decimal_text_prec, dv_eq, dv_lt, int_dv, round_dp_spec, Dec, DecV,
};
use crate::decision::Bias;
use crate::evidence::{Evidence, EvidenceV, Lean};
use crate::indicators::{series_get, Indicators};
use crate::text::{join, join_spec, nat_text, text_upper, texts, to_upper, u64_text};
use vstd::prelude::*;

verus! {

/// Text chrono writes for a UTC timestamp with "%Y-%m-%d %H:%M:%S UTC".
pub uninterp spec fn utc_stamp_text(secs: int) -> Seq<char>;

/// `DateTime::from_timestamp(secs, 0)` formatted with
/// "%Y-%m-%d %H:%M:%S UTC" (empty when the timestamp is out of range).
#[verifier::external_body]
fn utc_stamp(secs: i64) -> (r: String)
    ensures
        r@ == utc_stamp_text(secs as int),
{
    match chrono::DateTime::from_timestamp(secs, 0) {
        Some(t) => t.format("%Y-%m-%d %H:%M:%S UTC").to_string(),
        None => String::new(),
    }
}

pub open spec fn ev_views(s: Seq<Evidence>) -> Seq<EvidenceV> {
    s.map_values(|e: Evidence| e@)
}

/// Facts that support `side` with a positive weight.
pub open spec fn side_count(s: Seq<EvidenceV>, side: Lean) -> nat
    decreases s.len(),
{
    if s.len() == 0 {
        0
    } else {
        side_count(s.drop_last(), side) + (if s.last().confirms == side && dv_lt(int_dv(0), s.last().weight) {
            1nat
        } else {
            0nat
        })
    }
}

/// `base` followed by one "  [source] finding" line per fact.
pub open spec fn facts_text(base: Seq<char>, s: Seq<EvidenceV>) -> Seq<char>
    decreases s.len(),
{
    if s.len() == 0 {
        base
    } else {
        facts_text(base, s.drop_last()) + "  ["@ + s.last().source + "] "@ + s.last().finding + "\n"@
    }
}

/// `base` followed by `prefix` + line + newline for each line.
pub open spec fn lines_text(base: Seq<char>, prefix: Seq<char>, s: Seq<Seq<char>>) -> Seq<char>
    decreases s.len(),
{
    if s.len() == 0 {
        base
    } else {
        lines_text(base, prefix, s.drop_last()) + prefix + s.last() + "\n"@
    }
}

pub open spec fn bias_word(dir: Bias) -> Seq<char> {
    match dir {
        Bias::Buy => "BUY"@,
        Bias::Sell => "SELL"@,
        Bias::Wait => "WAIT"@,
    }
}

/// Stop and target shown in the report: one and two ATR(14) from the price.
pub open spec fn key_levels(dir: Bias, ind: Indicators) -> Option<(DecV, DecV)> {
    let atr = ind.atr14();
    match decimal_checked_mul(atr, int_dv(2)) {
        None => None,
        Some(a2) => {
            let sl = if dir == Bias::Buy {
                decimal_checked_sub(ind.price@, atr)
            } else {
                decimal_checked_add(ind.price@, atr)
            };
            let tp = if dir == Bias::Buy {
                decimal_checked_add(ind.price@, a2)
            } else {
                decimal_checked_sub(ind.price@, a2)
            };
            match (sl, tp) {
                (Some(a), Some(b)) => Some((a, b)),
                _ => None,
            }
        },
    }
}

/// Direction word, rationale and expected magnitude of the next move.
pub open spec fn forecast(dir: Bias, pct: DecV, ind: Indicators) -> Option<(Seq<char>, Seq<char>, DecV)> {
    if dir == Bias::Wait {
        Some(
            (
                "FLAT / RANGE"@,
                "Insufficient conviction — mixed evidence. Expect chop until a breakout trigger fires."@,
                ind.atr14(),
            ),
        )
    } else {
        let up = dir == Bias::Buy;
        let target = if up {
            ind.swing_high@
        } else {
            ind.swing_low@
        };
        match decimal_checked_sub(target, ind.price@) {
            None => None,
            Some(d) => Some(
                (
                    if up {
                        "UP"@
                    } else {
                        "DOWN"@
                    },
                    "Bias "@ + (if up {
                        "UP"@
                    } else {
                        "DOWN"@
                    }) + " with "@ + decimal_text_prec(pct, 0)
                        + "% conviction. Momentum + structure align — expect continuation "@ + (if up {
                        "up"@
                    } else {
                        "down"@
                    }) + " toward "@ + decimal_text(target) + "."@,
                    abs_v(d),
                ),
            ),
        }
    }
}

/// Magnitude in ATRs (2 decimals), "?" without an ATR.
pub open spec fn atr_ratio_text(mag: DecV, atr: DecV) -> Option<Seq<char>> {
    if !dv_eq(atr, int_dv(0)) {
        match decimal_checked_div(mag, atr) {
            Some(q) => Some(decimal_text(round_dp_spec(q, 2))),
            None => None,
        }
    } else {
        Some("?"@)
    }
}

pub open spec fn report_head(
    symbol: Seq<char>,
    tf_mins: nat,
    now_ts: int,
    session: Seq<char>,
    market_state: Seq<char>,
    dir: Bias,
    pct: DecV,
    ev: Seq<EvidenceV>,
) -> Seq<char> {
    "============================================\n  MARKET READING: "@ + symbol + " ("@ + nat_text(tf_mins)
        + "min)\n  UTC: "@ + utc_stamp_text(now_ts) + "\n  Session: "@ + session + "\n  Market State: "@
        + market_state + "\n============================================\n\n"@ + "TRADE BIAS: "@ + bias_word(dir)
        + " (evidence: "@ + decimal_text_prec(pct, 1) + "%)\n"@ + nat_text(side_count(ev, Lean::Buy))
        + " tools confirm BUY, "@ + nat_text(side_count(ev, Lean::Sell)) + " tools confirm SELL.\n\n"@
        + "VERIFIED FACTS:\n"@
}

/// The full written reading (`None` on arithmetic overflow).
pub open spec fn report_spec(
    market_state: Seq<char>,
    dir: Bias,
    score: DecV,
    session: Seq<char>,
    ev: Seq<EvidenceV>,
    ind: Indicators,
    symbol: Seq<char>,
    tf_mins: nat,
    watch: Seq<Seq<char>>,
    checklist: Seq<Seq<char>>,
    move_candles: nat,
    move_label: Seq<char>,
    now_ts: int,
) -> Option<Seq<char>> {
    match decimal_checked_mul(score, int_dv(100)) {
        None => None,
        Some(pct) => match (key_levels(dir, ind), forecast(dir, pct, ind)) {
            (Some((sl, tp)), Some((fdir, why, mag))) => match atr_ratio_text(mag, ind.atr14()) {
                None => None,
                Some(ratio) => {
                    let head = report_head(symbol, tf_mins, now_ts, session, market_state, dir, pct, ev);
                    let facts = facts_text(head, ev);
                    let cl = lines_text(facts + "\nENTRY CHECKLIST:\n"@, "  "@, checklist);
                    let w = lines_text(cl + "\nWHAT TO WATCH:\n"@, "  - "@, watch);
                    Some(
                        w + "\nKEY LEVELS: Entry="@ + decimal_text(ind.price@) + " SL="@ + decimal_text(sl) + " TP="@
                            + decimal_text(tp) + "\n"@
                            + "\n============================================\n  FORWARD FORECAST (next move)\n============================================\n"@
                            + "Direction: "@ + fdir + "\n"@ + "Expected magnitude: ~"@ + decimal_text(
                            round_dp_spec(mag, 5),
                        ) + " ("@ + ratio + " ATR)\n"@ + "Rationale: "@ + why + "\n"@ + "Horizon: ~"@ + nat_text(
                            move_candles,
                        ) + " candles (≈"@ + move_label + ")\n"@,
                    )
                },
            },
            _ => None,
        },
    }
}

fn bias_word_exec(dir: Bias) -> (r: &'static str)
    ensures
        r@ == bias_word(dir),
{
    match dir {
        Bias::Buy => "BUY",
        Bias::Sell => "SELL",
        Bias::Wait => "WAIT",
    }
}

fn side_counts(ev: &Vec<Evidence>) -> (r: (u64, u64))
    requires
        crate::evidence::evidence_wf(ev@),
    ensures
        r.0 as nat == side_count(ev_views(ev@), Lean::Buy),
        r.1 as nat == side_count(ev_views(ev@), Lean::Sell),
{
    let mut b: u64 = 0;
    let mut s: u64 = 0;
    let mut i: usize = 0;
    let zero = Dec::zero();
    while i < ev.len()
        invariant
            i <= ev.len(),
            crate::evidence::evidence_wf(ev@),
            zero@ == int_dv(0),
            b <= i,
            s <= i,
            b as nat == side_count(ev_views(ev@.take(i as int)), Lean::Buy),
            s as nat == side_count(ev_views(ev@.take(i as int)), Lean::Sell),
        decreases ev.len() - i,
    {
        assert(ev_views(ev@.take(i + 1)).drop_last() =~= ev_views(ev@.take(i as int)));
        assert(ev_views(ev@.take(i + 1)).last() == ev@[i as int]@);
        assert(ev@[i as int].weight.wf());
        let pos = zero.lt(&ev[i].weight);
        if ev[i].confirms == Lean::Buy && pos {
            b = b + 1;
        }
        if ev[i].confirms == Lean::Sell && pos {
            s = s + 1;
        }
        i = i + 1;
    }
    assert(ev@.take(ev.len() as int) =~= ev@);
    (b, s)
}

fn append_facts(r: &mut String, ev: &Vec<Evidence>)
    ensures
        final(r)@ == facts_text(old(r)@, ev_views(ev@)),
{
    let ghost base = r@;
    let mut i: usize = 0;
    while i < ev.len()
        invariant
            i <= ev.len(),
            r@ == facts_text(base, ev_views(ev@.take(i as int))),
        decreases ev.len() - i,
    {
        assert(ev_views(ev@.take(i + 1)).drop_last() =~= ev_views(ev@.take(i as int)));
        assert(ev_views(ev@.take(i + 1)).last() == ev@[i as int]@);
        r.append("  [");
        r.append(ev[i].source.as_str());
        r.append("] ");
        r.append(ev[i].finding.as_str());
        r.append("\n");
        i = i + 1;
    }
    assert(ev@.take(ev.len() as int) =~= ev@);
}

fn append_lines(r: &mut String, prefix: &str, lines: &Vec<String>)
    ensures
        final(r)@ == lines_text(old(r)@, prefix@, texts(lines@)),
{
    let ghost base = r@;
    let mut i: usize = 0;
    while i < lines.len()
        invariant
            i <= lines.len(),
            r@ == lines_text(base, prefix@, texts(lines@.take(i as int))),
        decreases lines.len() - i,
    {
        assert(texts(lines@.take(i + 1)).drop_last() =~= texts(lines@.take(i as int)));
        assert(texts(lines@.take(i + 1)).last() == lines@[i as int]@);
        r.append(prefix);
        r.append(lines[i].as_str());
        r.append("\n");
        i = i + 1;
    }
    assert(lines@.take(lines.len() as int) =~= lines@);
}

fn key_levels_exec(dir: Bias, ind: &Indicators) -> (r: Option<(Dec, Dec)>)
    requires
        ind.wf(),
    ensures
        match r {
            Some((a, b)) => key_levels(dir, *ind) == Some((a@, b@)) && a.wf() && b.wf(),
            None => key_levels(dir, *ind) is None,
        },
{
    let atr = ind.atr_14();
    let a2 = atr.mul(&Dec::from_i64(2))?;
    let sl = if dir == Bias::Buy {
        ind.price.sub(&atr)
    } else {
        ind.price.add(&atr)
    };
    let tp = if dir == Bias::Buy {
        ind.price.add(&a2)
    } else {
        ind.price.sub(&a2)
    };
    match (sl, tp) {
        (Some(a), Some(b)) => Some((a, b)),
        _ => None,
    }
}

fn forecast_exec(dir: Bias, pct: &Dec, ind: &Indicators) -> (r: Option<(String, String, Dec)>)
    requires
        pct.wf(),
        ind.wf(),
    ensures
        match r {
            Some((a, b, m)) => forecast(dir, pct@, *ind) == Some((a@, b@, m@)) && m.wf(),
            None => forecast(dir, pct@, *ind) is None,
        },
{
    if dir == Bias::Wait {
        return Some(
            (
                String::from_str("FLAT / RANGE"),
                String::from_str(
                    "Insufficient conviction — mixed evidence. Expect chop until a breakout trigger fires.",
                ),
                ind.atr_14(),
            ),
        );
    }
    let up = dir == Bias::Buy;
    let target = if up {
        ind.swing_high
    } else {
        ind.swing_low
    };
    let d = target.sub(&ind.price)?;
    let word = if up {
        "UP"
    } else {
        "DOWN"
    };
    let mut why = String::from_str("Bias ");
    why.append(word);
    why.append(" with ");
    why.append(pct.to_text_prec(0).as_str());
    why.append("% conviction. Momentum + structure align — expect continuation ");
    if up {
        why.append("up");
    } else {
        why.append("down");
    }
    why.append(" toward ");
    why.append(target.to_text().as_str());
    why.append(".");
    Some((String::from_str(word), why, d.abs()))
}

/// Writes the market reading: header, bias, every fact, the checklist, what
/// to watch, key levels and the forward forecast.
pub fn build_report(
    market_state: &str,
    dir: Bias,
    score: &Dec,
    session: &str,
    evidence: &Vec<Evidence>,
    ind: &Indicators,
    symbol: &str,
    tf_mins: u32,
    watch: &Vec<String>,
    checklist: &Vec<String>,
    move_candles: u32,
    move_label: &str,
    now_ts: i64,
) -> (r: Option<String>)
    requires
        score.wf(),
        ind.wf(),
        crate::evidence::evidence_wf(evidence@),
    ensures
        match r {
            Some(s) => report_spec(
                market_state@,
                dir,
                score@,
                session@,
                ev_views(evidence@),
                *ind,
                symbol@,
                tf_mins as nat,
                texts(watch@),
                texts(checklist@),
                move_candles as nat,
                move_label@,
                now_ts as int,
            ) == Some(s@),
            None => report_spec(
                market_state@,
                dir,
                score@,
                session@,
                ev_views(evidence@),
                *ind,
                symbol@,
                tf_mins as nat,
                texts(watch@),
                texts(checklist@),
                move_candles as nat,
                move_label@,
                now_ts as int,
            ) is None,
        },
{
    let pct = score.mul(&Dec::from_i64(100))?;
    let (sl, tp) = key_levels_exec(dir, ind)?;
    let (fdir, why, mag) = forecast_exec(dir, &pct, ind)?;
    let atr = ind.atr_14();
    let ratio = if !atr.eq(&Dec::zero()) {
        let q = mag.div(&atr)?;
        q.round_dp(2).to_text()
    } else {
        String::from_str("?")
    };
    let (nb, ns) = side_counts(evidence);
    let mut r = String::from_str("============================================\n  MARKET READING: ");
    r.append(symbol);
    r.append(" (");
    r.append(u64_text(tf_mins as u64).as_str());
    r.append("min)\n  UTC: ");
    r.append(utc_stamp(now_ts).as_str());
    r.append("\n  Session: ");
    r.append(session);
    r.append("\n  Market State: ");
    r.append(market_state);
    r.append("\n============================================\n\n");
    r.append("TRADE BIAS: ");
    r.append(bias_word_exec(dir));
    r.append(" (evidence: ");
    r.append(pct.to_text_prec(1).as_str());
    r.append("%)\n");
    r.append(u64_text(nb).as_str());
    r.append(" tools confirm BUY, ");
    r.append(u64_text(ns).as_str());
    r.append(" tools confirm SELL.\n\n");
    r.append("VERIFIED FACTS:\n");
    append_facts(&mut r, evidence);
    r.append("\nENTRY CHECKLIST:\n");
    append_lines(&mut r, "  ", checklist);
    r.append("\nWHAT TO WATCH:\n");
    append_lines(&mut r, "  - ", watch);
    r.append("\nKEY LEVELS: Entry=");
    r.append(ind.price.to_text().as_str());
    r.append(" SL=");
    r.append(sl.to_text().as_str());
    r.append(" TP=");
    r.append(tp.to_text().as_str());
    r.append("\n");
    r.append(
        "\n============================================\n  FORWARD FORECAST (next move)\n============================================\n",
    );
    r.append("Direction: ");
    r.append(fdir.as_str());
    r.append("\n");
    r.append("Expected magnitude: ~");
    r.append(mag.round_dp(5).to_text().as_str());
    r.append(" (");
    r.append(ratio.as_str());
    r.append(" ATR)\n");
    r.append("Rationale: ");
    r.append(why.as_str());
    r.append("\n");
    r.append("Horizon: ~");
    r.append(u64_text(move_candles as u64).as_str());
    r.append(" candles (≈");
    r.append(move_label);
    r.append(")\n");
    Some(r)
}

// ---------------------------------------------------------------------------
// Forecasting model: prompt and answer.
// ---------------------------------------------------------------------------
pub open spec fn forecast_system_prompt() -> Seq<char> {
    "You are a forward-looking market forecaster. Based ONLY on the verified evidence provided, predict what the chart is MOST LIKELY to do next over the upcoming candle(s). State a clear directional forecast (UP, DOWN, or FLAT), the specific trigger that would confirm or invalidate your forecast, and the time horizon. Be decisive. Answer in JSON with keys: forecast, rationale, trigger_confirm, trigger_invalidate, horizon."@
}

/// The system prompt of the forecasting model.
pub fn system_prompt() -> (r: String)
    ensures
        r@ == forecast_system_prompt(),
{
    String::from_str(
        "You are a forward-looking market forecaster. Based ONLY on the verified evidence provided, predict what the chart is MOST LIKELY to do next over the upcoming candle(s). State a clear directional forecast (UP, DOWN, or FLAT), the specific trigger that would confirm or invalidate your forecast, and the time horizon. Be decisive. Answer in JSON with keys: forecast, rationale, trigger_confirm, trigger_invalidate, horizon.",
    )
}

/// "[source] finding" for the first ten facts with a positive weight.
pub open spec fn weighted_facts(s: Seq<EvidenceV>, limit: nat) -> Seq<Seq<char>>
    decreases s.len(),
{
    if s.len() == 0 || limit == 0 {
        Seq::empty()
    } else if dv_lt(int_dv(0), s[0].weight) {
        seq!["["@ + s[0].source + "] "@ + s[0].finding] + weighted_facts(s.drop_first(), (limit - 1) as nat)
    } else {
        weighted_facts(s.drop_first(), limit)
    }
}

pub open spec fn user_prompt_spec(
    symbol: Seq<char>,
    dir: Bias,
    score: DecV,
    ind: Indicators,
    ev: Seq<EvidenceV>,
) -> Option<Seq<char>> {
    match decimal_checked_mul(score, int_dv(100)) {
        None => None,
        Some(pct) => Some(
            "Symbol: "@ + symbol + "\nCurrent bias: "@ + crate::decision::bias_text(dir) + "\nConviction: "@
                + decimal_text(pct) + "%\nADX: "@ + decimal_text(ind.adx@) + " RSI: "@ + (match series_get(
                ind.rsi@,
                14,
            ) {
                Some(r) => decimal_text(r),
                None => Seq::empty(),
            }) + " Stoch: "@ + decimal_text(ind.stoch_k@) + "\n\nVerified facts:\n"@ + join_spec(
                weighted_facts(ev, 10),
                "\n"@,
            )
                + "\n\nBased on this evidence, forecast where the graph is going NEXT. What is the most probable next move and why? What event confirms it? What invalidates it?"@,
        ),
    }
}

fn weighted_fact_lines(ev: &Vec<Evidence>) -> (r: Vec<String>)
    requires
        crate::evidence::evidence_wf(ev@),
    ensures
        texts(r@) == weighted_facts(ev_views(ev@), 10),
{
    let mut out: Vec<String> = Vec::new();
    let mut i: usize = 0;
    let mut left: u64 = 10;
    let zero = Dec::zero();
    assert(ev_views(ev@).skip(0) =~= ev_views(ev@));
    while i < ev.len() && left > 0
        invariant
            i <= ev.len(),
            left <= 10,
            crate::evidence::evidence_wf(ev@),
            zero@ == int_dv(0),
            texts(out@) + weighted_facts(ev_views(ev@).skip(i as int), left as nat) == weighted_facts(
                ev_views(ev@),
                10,
            ),
        decreases ev.len() - i,
    {
        let ghost rest = ev_views(ev@).skip(i as int);
        assert(rest.drop_first() =~= ev_views(ev@).skip(i + 1));
        assert(rest[0] == ev@[i as int]@);
        assert(ev@[i as int].weight.wf());
        if zero.lt(&ev[i].weight) {
            let mut l = String::from_str("[");
            l.append(ev[i].source.as_str());
            l.append("] ");
            l.append(ev[i].finding.as_str());
            let ghost before = texts(out@);
            out.push(l);
            assert(texts(out@) =~= before.push(l@));
            assert(seq![l@] + weighted_facts(ev_views(ev@).skip(i + 1), (left - 1) as nat) == weighted_facts(
                rest,
                left as nat,
            ));
            assert(texts(out@) + weighted_facts(ev_views(ev@).skip(i + 1), (left - 1) as nat) =~= before + (seq![
                l@,
            ] + weighted_facts(ev_views(ev@).skip(i + 1), (left - 1) as nat)));
            left = left - 1;
        }
        i = i + 1;
    }
    assert(weighted_facts(ev_views(ev@).skip(i as int), left as nat) =~= Seq::<Seq<char>>::empty());
    assert(texts(out@) + Seq::<Seq<char>>::empty() =~= texts(out@));
    out
}

/// The user prompt sent to the forecasting model.
pub fn user_prompt(symbol: &str, dir: Bias, score: &Dec, ind: &Indicators, evidence: &Vec<Evidence>) -> (r: Option<
    String,
>)
    requires
        score.wf(),
        ind.wf(),
        crate::evidence::evidence_wf(evidence@),
    ensures
        match r {
            Some(s) => user_prompt_spec(symbol@, dir, score@, *ind, ev_views(evidence@)) == Some(s@),
            None => user_prompt_spec(symbol@, dir, score@, *ind, ev_views(evidence@)) is None,
        },
{
    let pct = score.mul(&Dec::from_i64(100))?;
    let mut s = String::from_str("Symbol: ");
    s.append(symbol);
    s.append("\nCurrent bias: ");
    s.append(dir.to_text().as_str());
    s.append("\nConviction: ");
    s.append(pct.to_text().as_str());
    s.append("%\nADX: ");
    s.append(ind.adx.to_text().as_str());
    s.append(" RSI: ");
    match Indicators::lookup(&ind.rsi, 14) {
        Some(r) => {
            s.append(r.to_text().as_str());
        },
        None => {
            proof {
                reveal_strlit("");
            }
            s.append("");
        },
    }
    s.append(" Stoch: ");
    s.append(ind.stoch_k.to_text().as_str());
    s.append("\n\nVerified facts:\n");
    let lines = weighted_fact_lines(evidence);
    s.append(join(&lines, "\n").as_str());
    s.append(
        "\n\nBased on this evidence, forecast where the graph is going NEXT. What is the most probable next move and why? What event confirms it? What invalidates it?",
    );
    Some(s)
}

pub open spec fn insight_spec(
    forecast: Seq<char>,
    rationale: Seq<char>,
    confirm: Seq<char>,
    invalidate: Seq<char>,
    horizon: Seq<char>,
) -> Option<Seq<char>> {
    if forecast.len() == 0 && rationale.len() == 0 {
        None
    } else {
        Some(
            "FORECAST: "@ + text_upper(forecast) + "\nWhy: "@ + rationale + "\nConfirms if: "@ + confirm
                + "\nInvalidates if: "@ + invalidate + "\nHorizon: "@ + horizon,
        )
    }
}

/// Formats the model's answer fields (missing fields given as empty text);
/// `None` when both the forecast and the rationale are empty.
pub fn insight_text(forecast: &str, rationale: &str, confirm: &str, invalidate: &str, horizon: &str) -> (r: Option<
    String,
>)
    ensures
        match r {
            Some(s) => insight_spec(forecast@, rationale@, confirm@, invalidate@, horizon@) == Some(s@),
            None => insight_spec(forecast@, rationale@, confirm@, invalidate@, horizon@) is None,
        },
{
    if forecast.unicode_len() == 0 && rationale.unicode_len() == 0 {
        return None;
    }
    let mut s = String::from_str("FORECAST: ");
    s.append(to_upper(forecast).as_str());
    s.append("\nWhy: ");
    s.append(rationale);
    s.append("\nConfirms if: ");
    s.append(confirm);
    s.append("\nInvalidates if: ");
    s.append(invalidate);
    s.append("\nHorizon: ");
    s.append(horizon);
    Some(s)
}

/// The reading with the model's insight appended when there is one.
pub fn with_insight(reasoning: String, insight: &Option<String>) -> (r: String)
    ensures
        r@ == match insight {
            Some(i) => reasoning@ + "\n\nAI Insight: "@ + i@,
            None => reasoning@,
        },
{
    match insight {
        Some(i) => {
            let mut r = reasoning;
            r.append("\n\nAI Insight: ");
            r.append(i.as_str());
            r
        },
        None => reasoning,
    }
}

} // verus!
