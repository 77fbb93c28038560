//! The evidence-based market reading: every tool is read in a fixed order,
//! the weighted facts decide the direction, and the decision comes with its
//! levels, checklist, timing, trade options and written report.
use crate::candles::{candle_fits, direction_of, summarize_candle, summary_pattern, CandleSummary};
use crate::conditions::{
    news_fact, news_stage, note_strategies_wf, notes_fact, session_fact, session_stage, strategies_fold, upper_fact,
    upper_stage, NoteStrategy,
};
use crate::decimal::{abs_v, int_dv, max_v, min_v, round_dp_spec, sub_v, Dec, DecV};
use crate::decision::{
    abs_body, avg_body, avg_body_spec, bias_text, climax, climax_spec, decide, decide_spec, distances,
    distances_spec, outlook, outlook_spec, stops, stops_spec, Bias,
};
use crate::domain::{candles_wf, Candle};
use crate::evidence::{
    context_of, ev, high_newest_first, low_newest_first, opt_tally, resistance_spec, support_spec, swing_window, with_ev,
    Context, Evidence, Lean, Tally, TallyV,
};
use crate::exhaustion::{exhaustion_fact, exhaustion_stage, fatigue_fact, fatigue_stage, reversal_fact, reversal_stage};
use crate::indicators::Indicators;
use crate::news::NewsAssessment;
use crate::options::{option_views, options_spec, trade_options, TradeOption};
use crate::oscillators::{
    bollinger_fact, bollinger_stage, earlier_rsi, macd_fact, macd_stage, rsi_fact, rsi_stage, stochastic_fact,
    stochastic_stage,
};
use crate::plan::{
    candle_timing, checklist_defined, checklist_lines, checklist_of, checklist_texts, entry_checklist, move_candles, move_candles_spec,
    move_duration_label, remaining_secs, slot_secs, ts_bound, watch_list, what_to_watch, EntryChecklist,
};
use crate::reading::{
    active_candlestick_pattern, active_chart_pattern, candlestick_label, chart_label, countdown_text,
    determine_market_state, format_countdown, hour_of, market_session, market_state_spec, next_candle_spec,
    predict_next_candle, recommend_timeframe, session_name, timeframe_advice, utc_hour,
};
use crate::report::{build_report, ev_views, report_spec};
use crate::text::{text_upper, texts};
use crate::tools::{adx_fact, adx_finding, patterns_fact, patterns_stage, price_fact, price_stage};
use crate::trend::{
    ema200_fact, ema200_stage, ema50_fact, ema50_stage, structure_fact, structure_stage, trend_mode_fact,
    trend_mode_stage,
};
use crate::upper::{upper_bear_count, upper_bull_count, upper_votes, UpperTFContext};
use vstd::prelude::*;

verus! {

/// Everything the reading is made from: the chart, its indicator readings
/// (and RSI(14) five bars earlier), the higher-timeframe contexts, the news
/// assessment and the user's strategies with the rules that fired.
pub struct AnalysisInput {
    pub symbol: String,
    pub timeframe_minutes: u32,
    pub now_ts: i64,
    pub candles: Vec<Candle>,
    pub indicators: Indicators,
    pub rsi_earlier: Option<Dec>,
    pub upper: Vec<UpperTFContext>,
    pub news: NewsAssessment,
    pub strategies: Vec<NoteStrategy>,
}

/// Why no reading was produced.
#[derive(Clone, Copy, Debug, PartialEq, Eq, Structural)]
pub enum AnalysisError {
    /// Fewer than 50 candles.
    NotEnoughData,
    /// A decimal operation left the representable range.
    Overflow,
}

impl AnalysisError {
    /// The error as the market-data error reports it.
    pub fn message(&self) -> (r: String)
        ensures
            r@ == match *self {
                AnalysisError::NotEnoughData => "not enough candle data"@,
                AnalysisError::Overflow => "arithmetic overflow"@,
            },
    {
        match self {
            AnalysisError::NotEnoughData => String::from_str("not enough candle data"),
            AnalysisError::Overflow => String::from_str("arithmetic overflow"),
        }
    }
}

/// Candles fetched for an analysis.
pub const ANALYSIS_CANDLES: usize = 5000;

/// The first step of an analysis, taken on the fetched candles alone: with
/// fewer than 50 the analysis stops here, before the news, the notes, the
/// higher timeframes or the model are consulted.
pub fn check_candles(count: usize) -> (r: Result<(), AnalysisError>)
    ensures
        count < 50 ==> r == Err::<(), AnalysisError>(AnalysisError::NotEnoughData),
        count >= 50 ==> r is Ok,
{
    if count < 50 {
        Err(AnalysisError::NotEnoughData)
    } else {
        Ok(())
    }
}

/// The market reading.
pub struct Prediction {
    pub market_state: String,
    pub direction: String,
    pub evidence_score: Dec,
    pub entry_price: Dec,
    pub stop_loss: Dec,
    pub take_profit: Dec,
    pub expiry_ts: i64,
    pub reasoning: String,
    pub evidence: Vec<Evidence>,
    pub what_to_watch: Vec<String>,
    pub timeframe_secs: u32,
    pub symbol: String,
    pub analysis_time_ts: i64,
    pub market_session: String,
    pub current_candle_start_ts: i64,
    pub next_candle_start_ts: i64,
    pub seconds_to_next_candle: i64,
    pub countdown: String,
    pub recent_candles: Vec<CandleSummary>,
    pub upper_timeframe_context: Vec<UpperTFContext>,
    pub news: NewsAssessment,
    pub entry_checklist: EntryChecklist,
    pub estimated_move_duration: String,
    pub estimated_move_candles: u32,
    pub recommended_timeframe_minutes: u32,
    pub recommended_trade_duration_minutes: u32,
    pub recommendation_reason: String,
    pub next_candle_prediction: String,
    pub next_candle_reasoning: String,
    pub active_pattern: String,
    pub active_chart_pattern: String,
    pub trade_options: Vec<TradeOption>,
}

pub open spec fn empty_tally() -> TallyV {
    TallyV {
        evidence: Seq::empty(),
        bull: int_dv(0),
        bear: int_dv(0),
        trend: Lean::Neutral,
        momentum: Lean::Neutral,
        pattern: Lean::Neutral,
    }
}

/// The chart tools, in order: last candle, ADX, candlestick patterns, RSI,
/// EMA200, EMA50, price structure, MACD, Bollinger, Stochastic, exhaustion,
/// reversal convergence, fatigue.
pub open spec fn chart_stages(t0: TallyV, candles: Seq<Candle>, ind: Indicators, ctx: Context, earlier: DecV) -> Option<
    TallyV,
> {
    match price_stage(t0, candles.last()) {
        None => None,
        Some(t1) => {
            let t2 = with_ev(t1, ev("adx"@, adx_finding(ind), Lean::Neutral, int_dv(0)));
            match patterns_stage(t2, ind.patterns@) {
                None => None,
                Some(t3) => match rsi_stage(t3, ind, ctx, earlier) {
                    None => None,
                    Some(t4) => match ema200_stage(t4, ind, ctx) {
                        None => None,
                        Some(t5) => match ema50_stage(t5, ind) {
                            None => None,
                            Some(t6) => match structure_stage(t6, candles) {
                                None => None,
                                Some(t7) => match macd_stage(t7, ind, ctx) {
                                    None => None,
                                    Some(t8) => match bollinger_stage(t8, ind, ctx) {
                                        None => None,
                                        Some(t9) => match stochastic_stage(t9, ind, ctx) {
                                            None => None,
                                            Some(t10) => match exhaustion_stage(t10, ind, ctx) {
                                                None => None,
                                                Some(t11) => match reversal_stage(t11, ctx) {
                                                    None => None,
                                                    Some(t12) => fatigue_stage(t12, candles),
                                                },
                                            },
                                        },
                                    },
                                },
                            },
                        },
                    },
                },
            }
        },
    }
}

/// The conditions, in order: session, higher timeframes, news, note rules,
/// strong-trend bonus.
pub open spec fn condition_stages(
    t: TallyV,
    now_ts: int,
    ub: nat,
    ue: nat,
    news: NewsAssessment,
    symbol: Seq<char>,
    strategies: Seq<NoteStrategy>,
    ind: Indicators,
) -> Option<TallyV> {
    match session_stage(t, now_ts) {
        None => None,
        Some(t1) => match upper_stage(t1, ub, ue) {
            None => None,
            Some(t2) => match news_stage(t2, news) {
                None => None,
                Some(t3) => match strategies_fold(Some(t3), symbol, strategies) {
                    None => None,
                    Some(t4) => trend_mode_stage(t4, ind),
                },
            },
        },
    }
}

pub open spec fn evidence_spec(inp: AnalysisInput, ctx: Context) -> Option<TallyV> {
    match chart_stages(
        empty_tally(),
        inp.candles@,
        inp.indicators,
        ctx,
        earlier_rsi(inp.rsi_earlier, ctx),
    ) {
        None => None,
        Some(t) => condition_stages(
            t,
            inp.now_ts as int,
            upper_bull_count(inp.upper@),
            upper_bear_count(inp.upper@),
            inp.news,
            inp.symbol@,
            inp.strategies@,
            inp.indicators,
        ),
    }
}

/// Evidence, direction, conviction and average body; the two-candle
/// outlook is the last fact.
pub open spec fn verdict_spec(inp: AnalysisInput, ctx: Context) -> Option<(TallyV, Bias, DecV, DecV)> {
    match evidence_spec(inp, ctx) {
        None => None,
        Some(t) => match decide_spec(
            t,
            inp.indicators,
            ctx,
            upper_bull_count(inp.upper@),
            upper_bear_count(inp.upper@),
            text_upper(inp.symbol@),
        ) {
            None => None,
            Some((t1, dir, score)) => match avg_body_spec(inp.candles@) {
                None => None,
                Some(avg) => match climax_spec(inp.candles@, avg) {
                    None => None,
                    Some(cl) => Some(
                        (
                            with_ev(
                                t1,
                                ev("ahead"@, outlook_spec(dir, inp.candles@, cl, ctx), Lean::Neutral, int_dv(0)),
                            ),
                            dir,
                            score,
                            avg,
                        ),
                    ),
                },
            },
        },
    }
}

/// The summary describes the candle as `summarize_candle` does.
pub open spec fn summary_of(s: CandleSummary, c: Candle, ind: Indicators) -> bool {
    &&& s.direction@ == direction_of(c)
    &&& s.open == c.open
    &&& s.high == c.high
    &&& s.low == c.low
    &&& s.close == c.close
    &&& s.body@ == round_dp_spec(abs_v(sub_v(c.close@, c.open@)), 6)
    &&& s.upper_wick@ == round_dp_spec(sub_v(c.high@, max_v(c.open@, c.close@)), 6)
    &&& s.lower_wick@ == round_dp_spec(sub_v(min_v(c.open@, c.close@), c.low@), 6)
    &&& s.pattern@ == summary_pattern(c, ind)
}

/// The last five candles, oldest first.
pub open spec fn recent_of(r: Seq<CandleSummary>, candles: Seq<Candle>, ind: Indicators) -> bool {
    &&& r.len() == 5
    &&& forall|i: int| 0 <= i < 5 ==> summary_of(#[trigger] r[i], candles[candles.len() - 5 + i], ind)
}

pub open spec fn slot_of(inp: AnalysisInput) -> int {
    let c = inp.candles@;
    slot_secs(c.last().ts as int, Some(c[c.len() - 2].ts as int), inp.timeframe_minutes as int * 60)
}

/// What the analysis needs of its input beyond having 50 candles.
pub open spec fn input_ok(inp: AnalysisInput) -> bool {
    let c = inp.candles@;
    &&& candles_wf(c)
    &&& inp.indicators.wf()
    &&& (inp.rsi_earlier matches Some(e) ==> e.wf())
    &&& note_strategies_wf(inp.strategies@)
    &&& inp.upper@.len() <= u32::MAX
    &&& c.len() <= u32::MAX
    &&& 1 <= inp.timeframe_minutes
    &&& inp.timeframe_minutes as int * 60 <= u32::MAX
    &&& c.len() >= 50 ==> {
        &&& forall|i: int| c.len() - 5 <= i < c.len() ==> candle_fits(#[trigger] c[i])
        &&& 0 <= inp.now_ts <= ts_bound()
        &&& -ts_bound() <= c.last().ts <= ts_bound()
        &&& -ts_bound() <= c[c.len() - 2].ts <= ts_bound()
    }
}

/// The reading is the one the evidence, decision and plan specify.
pub open spec fn prediction_of(p: Prediction, inp: AnalysisInput, ctx: Context) -> bool {
    let c = inp.candles@;
    let ind = inp.indicators;
    let now = inp.now_ts as int;
    match verdict_spec(inp, ctx) {
        None => false,
        Some((t, dir, score, avg)) => match distances_spec(ind, inp.symbol@) {
            None => false,
            Some((sl_d, tp_d)) => match stops_spec(dir, ind.price@, sl_d, tp_d) {
                None => false,
                Some((stop, take)) => match move_candles_spec(tp_d, avg, ind.adx@, inp.symbol@) {
                    None => false,
                    Some(mc) => {
                        let slot = slot_of(inp);
                        let rem = remaining_secs(now, slot);
                        let session = session_name(hour_of(now));
                        let watch = watch_list(dir, ctx.rsi@, ind, inp.news, countdown_text(rem));
                        let label = countdown_text(mc * slot);
                        let adv = timeframe_advice(text_upper(inp.symbol@));
                        &&& p.market_state@ == market_state_spec(ind)
                        &&& p.direction@ == bias_text(dir)
                        &&& p.evidence_score@ == score
                        &&& p.entry_price@ == round_dp_spec(ind.price@, 6)
                        &&& p.stop_loss@ == round_dp_spec(stop, 6)
                        &&& p.take_profit@ == round_dp_spec(take, 6)
                        &&& p.expiry_ts == now + slot
                        &&& ev_views(p.evidence@) == t.evidence
                        &&& texts(p.what_to_watch@) == watch
                        &&& p.timeframe_secs == slot as u32
                        &&& p.symbol@ == inp.symbol@
                        &&& p.analysis_time_ts == now
                        &&& p.market_session@ == session
                        &&& p.current_candle_start_ts == c.last().ts
                        &&& p.next_candle_start_ts == now + rem
                        &&& p.seconds_to_next_candle == rem
                        &&& p.countdown@ == countdown_text(rem)
                        &&& recent_of(p.recent_candles@, c, ind)
                        &&& p.upper_timeframe_context@ == inp.upper@
                        &&& p.news == inp.news
                        &&& checklist_of(
                            p.entry_checklist,
                            dir,
                            score,
                            t,
                            ind,
                            ctx,
                            inp.news.status@,
                            sl_d,
                            tp_d,
                            hour_of(now),
                        )
                        &&& p.estimated_move_duration@ == label
                        &&& p.estimated_move_candles as int == mc
                        &&& p.recommended_timeframe_minutes == adv.0
                        &&& p.recommended_trade_duration_minutes == adv.1
                        &&& p.recommendation_reason@ == adv.2
                        &&& p.next_candle_prediction@ == next_candle_spec(ind).0
                        &&& p.next_candle_reasoning@ == next_candle_spec(ind).1
                        &&& p.active_pattern@ == candlestick_label(ind)
                        &&& p.active_chart_pattern@ == chart_label(ind)
                        &&& options_spec(dir, t.bull, t.bear, ind, ctx, ind.price@, sl_d, tp_d) == Some(
                            option_views(p.trade_options@),
                        )
                        &&& report_spec(
                            market_state_spec(ind),
                            dir,
                            score,
                            session,
                            t.evidence,
                            ind,
                            inp.symbol@,
                            inp.timeframe_minutes as nat,
                            watch,
                            texts(p.entry_checklist.details@),
                            mc as nat,
                            label,
                            now,
                        ) == Some(p.reasoning@)
                    },
                },
            },
        },
    }
}

// ---------------------------------------------------------------------------
// Exec.
// ---------------------------------------------------------------------------
fn chart_facts(candles: &Vec<Candle>, ind: &Indicators, ctx: &Context, rsi_earlier: Option<Dec>) -> (r: Option<
    Tally,
>)
    requires
        candles.len() >= 50,
        candles_wf(candles@),
        candle_fits(candles@.last()),
        ind.wf(),
        ctx.wf(),
        rsi_earlier matches Some(e) ==> e.wf(),
    ensures
        opt_tally(r) == chart_stages(empty_tally(), candles@, *ind, *ctx, earlier_rsi(rsi_earlier, *ctx)),
        r matches Some(x) ==> x.wf(),
{
    let t = Tally::new();
    let last = &candles[candles.len() - 1];
    assert(candles@.last().wf());
    let t = price_fact(t, last)?;
    let t = adx_fact(t, ind);
    let t = patterns_fact(t, ind)?;
    let t = rsi_fact(t, ind, ctx, rsi_earlier)?;
    let t = ema200_fact(t, ind, ctx)?;
    let t = ema50_fact(t, ind)?;
    let t = structure_fact(t, candles)?;
    let t = macd_fact(t, ind, ctx)?;
    let t = bollinger_fact(t, ind, ctx)?;
    let t = stochastic_fact(t, ind, ctx)?;
    let t = exhaustion_fact(t, ind, ctx)?;
    let t = reversal_fact(t, ctx)?;
    fatigue_fact(t, candles)
}

fn condition_facts(
    t: Tally,
    now_ts: i64,
    ub: u32,
    ue: u32,
    news: &NewsAssessment,
    symbol: &str,
    strategies: &Vec<NoteStrategy>,
    ind: &Indicators,
) -> (r: Option<Tally>)
    requires
        t.wf(),
        ind.wf(),
        note_strategies_wf(strategies@),
    ensures
        opt_tally(r) == condition_stages(t@, now_ts as int, ub as nat, ue as nat, *news, symbol@, strategies@, *ind),
        r matches Some(x) ==> x.wf(),
{
    let t = session_fact(t, now_ts)?;
    let t = upper_fact(t, ub, ue)?;
    let t = news_fact(t, news)?;
    let t = notes_fact(t, symbol, strategies)?;
    trend_mode_fact(t, ind)
}

fn verdict(inp: &AnalysisInput, ctx: &Context) -> (r: Option<(Tally, Bias, Dec, Dec)>)
    requires
        inp.candles.len() >= 50,
        input_ok(*inp),
        ctx.wf(),
    ensures
        match r {
            Some((t, dir, score, avg)) => {
                &&& verdict_spec(*inp, *ctx) == Some((t@, dir, score@, avg@))
                &&& t.wf()
                &&& score.wf()
                &&& avg.wf()
            },
            None => verdict_spec(*inp, *ctx) is None,
        },
{
    let c = &inp.candles;
    let ind = &inp.indicators;
    assert(candle_fits(c@.last())) by {
        assert(c@.last() == c@[c@.len() - 1]);
    }
    let t = chart_facts(c, ind, ctx, inp.rsi_earlier)?;
    let (ub, ue) = upper_votes(&inp.upper);
    let t = condition_facts(t, inp.now_ts, ub, ue, &inp.news, inp.symbol.as_str(), &inp.strategies, ind)?;
    let (t, dir, score) = decide(t, ind, ctx, ub, ue, inp.symbol.as_str())?;
    let avg = avg_body(c)?;
    let cl = climax(c, &avg)?;
    let text = outlook(dir, c, cl, ctx);
    let mut t = t;
    t.record("ahead", text, Lean::Neutral, Dec::zero());
    Some((t, dir, score, avg))
}

fn recent_summaries(candles: &Vec<Candle>, ind: &Indicators) -> (r: Vec<CandleSummary>)
    requires
        candles.len() >= 5,
        candles_wf(candles@),
        ind.wf(),
        forall|i: int| candles@.len() - 5 <= i < candles@.len() ==> candle_fits(#[trigger] candles@[i]),
    ensures
        recent_of(r@, candles@, *ind),
{
    let n = candles.len();
    let mut out: Vec<CandleSummary> = Vec::new();
    let mut k: usize = 0;
    while k < 5
        invariant
            n == candles@.len(),
            n >= 5,
            candles_wf(candles@),
            ind.wf(),
            forall|i: int| n - 5 <= i < n ==> candle_fits(#[trigger] candles@[i]),
            k <= 5,
            out@.len() == k,
            forall|i: int| 0 <= i < k ==> summary_of(#[trigger] out@[i], candles@[n - 5 + i], *ind),
        decreases 5 - k,
    {
        let c = &candles[n - 5 + k];
        assert(candles@[n - 5 + k].wf());
        assert(candle_fits(candles@[n - 5 + k]));
        let s = summarize_candle(c, ind);
        out.push(s);
        k = k + 1;
    }
    out
}

/// The prior swing levels can be compared with the price.
pub open spec fn context_defined(candles: Seq<Candle>, ind: Indicators) -> bool {
    &&& support_spec(ind, low_newest_first(swing_window(candles))) is Some
    &&& resistance_spec(ind, high_newest_first(swing_window(candles))) is Some
}

/// Every part of the reading can be computed without overflow.
pub open spec fn plan_defined(inp: AnalysisInput, ctx: Context) -> bool {
    let ind = inp.indicators;
    let now = inp.now_ts as int;
    match verdict_spec(inp, ctx) {
        None => false,
        Some((t, dir, score, avg)) => match distances_spec(ind, inp.symbol@) {
            None => false,
            Some((sl_d, tp_d)) => match move_candles_spec(tp_d, avg, ind.adx@, inp.symbol@) {
                None => false,
                Some(mc) => {
                    let slot = slot_of(inp);
                    let rem = remaining_secs(now, slot);
                    &&& stops_spec(dir, ind.price@, sl_d, tp_d) is Some
                    &&& checklist_defined(score, sl_d)
                    &&& options_spec(dir, t.bull, t.bear, ind, ctx, ind.price@, sl_d, tp_d) is Some
                    &&& report_spec(
                        market_state_spec(ind),
                        dir,
                        score,
                        session_name(hour_of(now)),
                        t.evidence,
                        ind,
                        inp.symbol@,
                        inp.timeframe_minutes as nat,
                        watch_list(dir, ctx.rsi@, ind, inp.news, countdown_text(rem)),
                        checklist_texts(dir, score, t, ind, ctx, inp.news.status@, sl_d, tp_d, hour_of(now)),
                        mc as nat,
                        countdown_text(mc * slot),
                        now,
                    ) is Some
                },
            },
        },
    }
}

#[verifier::rlimit(100)]
fn assemble(inp: AnalysisInput, ctx: &Context) -> (r: Option<Prediction>)
    requires
        inp.candles.len() >= 50,
        input_ok(inp),
        ctx.wf(),
    ensures
        match r {
            Some(p) => prediction_of(p, inp, *ctx),
            None => !plan_defined(inp, *ctx),
        },
{
    let c = &inp.candles;
    let ind = &inp.indicators;
    let n = c.len();
    let (t, dir, score, avg) = verdict(&inp, ctx)?;
    let (sl_d, tp_d) = distances(ind, inp.symbol.as_str())?;
    let mc = move_candles(&tp_d, &avg, &ind.adx, inp.symbol.as_str())?;
    let (stop, take) = stops(dir, &ind.price, &sl_d, &tp_d)?;
    let tf_secs: i64 = inp.timeframe_minutes as i64 * 60;
    let (slot, rem) = candle_timing(inp.now_ts, c[n - 1].ts, Some(c[n - 2].ts), tf_secs);
    let countdown = format_countdown(rem);
    let hour = utc_hour(inp.now_ts);
    let checklist = entry_checklist(
        dir,
        &score,
        &t,
        ind,
        ctx,
        &inp.news,
        &sl_d,
        &tp_d,
        hour,
    )?;
    let options = trade_options(dir, &t.bull, &t.bear, ind, ctx, &ind.price, &sl_d, &tp_d)?;
    let watch = what_to_watch(dir, &ctx.rsi, ind, &inp.news, countdown.as_str());
    let session = market_session(inp.now_ts);
    let state = determine_market_state(ind);
    let label = move_duration_label(mc, slot);
    let reasoning = build_report(
        state.as_str(),
        dir,
        &score,
        session.as_str(),
        &t.evidence,
        ind,
        inp.symbol.as_str(),
        inp.timeframe_minutes,
        &watch,
        &checklist.details,
        mc,
        label.as_str(),
        inp.now_ts,
    )?;
    let dir_text = dir.to_text();
    let (next_pred, next_reason) = predict_next_candle(ind, dir_text.as_str());
    let (rec_tf, rec_dur, rec_reason) = recommend_timeframe(inp.symbol.as_str());
    let recent = recent_summaries(c, ind);
    let p = Prediction {
        market_state: state,
        direction: dir_text,
        evidence_score: score,
        entry_price: ind.price.round_dp(6),
        stop_loss: stop.round_dp(6),
        take_profit: take.round_dp(6),
        expiry_ts: inp.now_ts + slot,
        reasoning,
        evidence: t.evidence,
        what_to_watch: watch,
        timeframe_secs: slot as u32,
        symbol: inp.symbol.clone(),
        analysis_time_ts: inp.now_ts,
        market_session: session,
        current_candle_start_ts: c[n - 1].ts,
        next_candle_start_ts: inp.now_ts + rem,
        seconds_to_next_candle: rem,
        countdown,
        recent_candles: recent,
        upper_timeframe_context: inp.upper,
        news: inp.news,
        entry_checklist: checklist,
        estimated_move_duration: label,
        estimated_move_candles: mc,
        recommended_timeframe_minutes: rec_tf,
        recommended_trade_duration_minutes: rec_dur,
        recommendation_reason: rec_reason,
        next_candle_prediction: next_pred,
        next_candle_reasoning: next_reason,
        active_pattern: active_candlestick_pattern(ind),
        active_chart_pattern: active_chart_pattern(ind),
        trade_options: options,
    };
    Some(p)
}

/// Reads the market: gathers the evidence from every tool, derives the
/// direction and conviction, and builds the plan, options and report.
/// `NotEnoughData` for fewer than 50 candles; `Overflow` when a decimal
/// operation leaves the representable range.
pub fn analyze(inp: AnalysisInput) -> (r: Result<Prediction, AnalysisError>)
    requires
        input_ok(inp),
    ensures
        inp.candles.len() < 50 ==> r is Err && r->Err_0 == AnalysisError::NotEnoughData,
        inp.candles.len() >= 50 ==> match r {
            Ok(p) => exists|ctx: Context|
                #[trigger] ctx.of(inp.candles@, inp.indicators) && prediction_of(p, inp, ctx),
            Err(e) => e == AnalysisError::Overflow && (!context_defined(inp.candles@, inp.indicators) || exists|
                ctx: Context,
            | #[trigger] ctx.of(inp.candles@, inp.indicators) && !plan_defined(inp, ctx)),
        },
{
    match check_candles(inp.candles.len()) {
        Err(e) => {
            return Err(e);
        },
        Ok(()) => {},
    }
    let ctx = match context_of(&inp.candles, &inp.indicators) {
        Some(c) => c,
        None => {
            return Err(AnalysisError::Overflow);
        },
    };
    let ghost gi = inp;
    assert(ctx.of(gi.candles@, gi.indicators));
    match assemble(inp, &ctx) {
        Some(p) => Ok(p),
        None => Err(AnalysisError::Overflow),
    }
}

} // verus!
