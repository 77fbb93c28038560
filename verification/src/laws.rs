//! Properties that hold across the library's operations.
use crate::backtest::{
    bar_spec, closed_trade, entry_spec, exit_spec, finish_spec, loss_count, manage_spec, mark_spec, run_bars,
    start_state, win_count, reverse_spec, initial_balance, open_spec, drawdown_spec, BarReading, PosV, SimState, TradeV,
};
use crate::decimal::{dv_eq, dv_le, dv_lt, dv_num, int_dv, pow10, DecV};
use crate::decision::{decide_spec, lean_bias, macro_side, structural_side, Bias};
use crate::domain::{Candle, Rule, Strategy};
use crate::dynamic_config::{lookup, pairs_map};
use crate::engine::{fires, signal_spec, weight_sums};
use crate::evidence::{Context, Lean, TallyV};
use crate::indicators::{series_get, Indicators};
use crate::deriv::{alnum_only, deriv_symbol_spec};
use crate::text::char_alphanumeric;
use crate::reading::{bear_signals, bull_signals, ema_structure_bear, next_candle_spec, push_if};
use crate::text::trim_spec;
use crate::news::{any_impact, assessment_of, concerns, rfc3339_offset_nanos, news_class, news_list, relevant_events, NewsAssessment, NewsEvent};
use crate::options::{options_spec, TradeOptionV};
use crate::plan::{
    checklist_of, conviction_ok, momentum_ok, pattern_ok, ready_spec, session_on, trend_ok, EntryChecklist,
};
use crate::settings_api::{shown_value, sensitive, tail4};
use vstd::prelude::*;

verus! {

/// A buy is only called when the bullish score is the larger one, and a
/// sell only when the bearish score is at least the bullish one.
pub proof fn law_direction_follows_scores(
    t: TallyV,
    ind: Indicators,
    ctx: Context,
    ub: nat,
    ue: nat,
    upper: Seq<char>,
    t2: TallyV,
    d: Bias,
    s: DecV,
)
    requires
        decide_spec(t, ind, ctx, ub, ue, upper) == Some((t2, d, s)),
    ensures
        d == Bias::Buy ==> dv_lt(t.bear, t.bull),
        d == Bias::Sell ==> !dv_lt(t.bear, t.bull),
{
}

/// When every higher timeframe agrees on a side, a non-BOOM/CRASH symbol is
/// never traded against it.
pub proof fn law_macro_agreement(
    t: TallyV,
    ind: Indicators,
    ctx: Context,
    ub: nat,
    ue: nat,
    upper: Seq<char>,
    t2: TallyV,
    d: Bias,
    s: DecV,
    m: Lean,
)
    requires
        decide_spec(t, ind, ctx, ub, ue, upper) == Some((t2, d, s)),
        macro_side(ub, ue) == Some(m),
        structural_side(upper) is None,
        d != Bias::Wait,
    ensures
        d == lean_bias(m),
{
}

/// A trade is ready only when every checklist condition holds.
pub proof fn law_ready_needs_every_condition(
    dir: Bias,
    score: DecV,
    t: TallyV,
    ind: Indicators,
    ctx: Context,
    no_news: bool,
    rr: bool,
    hour: int,
)
    requires
        ready_spec(dir, score, t, ind, ctx, no_news, rr, hour),
    ensures
        dir != Bias::Wait,
        conviction_ok(dir, score),
        trend_ok(dir, t),
        momentum_ok(dir, t),
        pattern_ok(dir, t, ind, ctx),
        no_news,
        rr,
        session_on(hour),
{
}

/// High-impact news blocks the trade: with a "danger" news status the
/// checklist is never ready.
pub proof fn law_news_blocks_trade(
    c: EntryChecklist,
    dir: Bias,
    score: DecV,
    t: TallyV,
    ind: Indicators,
    ctx: Context,
    sl: DecV,
    tp: DecV,
    hour: int,
)
    requires
        checklist_of(c, dir, score, t, ind, ctx, "danger"@, sl, tp, hour),
    ensures
        !c.ready,
        !c.no_news_risk,
{
}

/// The two trade options never both carry the recommendation.
pub proof fn law_one_recommendation(
    dir: Bias,
    bull: DecV,
    bear: DecV,
    ind: Indicators,
    ctx: Context,
    entry: DecV,
    sl: DecV,
    tp: DecV,
    v: Seq<TradeOptionV>,
)
    requires
        options_spec(dir, bull, bear, ind, ctx, entry, sl, tp) == Some(v),
    ensures
        v.len() == 0 || v.len() == 2,
        v.len() == 2 ==> !(v[0].recommended && v[1].recommended),
{
}

/// When a bar reaches both the stop and the target, the stop wins.
pub proof fn law_stop_first(pos: PosV, bar: Candle)
    requires
        pos.stop is Some,
        pos.take_profit is Some,
        pos.side == crate::domain::Side::Buy ==> dv_le(bar.low@, pos.stop.unwrap()),
        pos.side == crate::domain::Side::Sell ==> dv_le(pos.stop.unwrap(), bar.high@),
    ensures
        exit_spec(pos, bar) == Some((pos.stop.unwrap(), "stop_loss"@)),
{
}

/// `a < b` exactly when `b <= a` fails.
pub proof fn lemma_lt_le(a: DecV, b: DecV)
    ensures
        dv_lt(a, b) <==> !dv_le(b, a),
{
}

/// Every closed trade is either a win (positive profit) or a loss.
pub proof fn law_wins_and_losses(t: Seq<TradeV>)
    ensures
        win_count(t) + loss_count(t) == t.len(),
    decreases t.len(),
{
    if t.len() > 0 {
        law_wins_and_losses(t.drop_last());
        lemma_lt_le(int_dv(0), t.last().pnl);
    }
}

pub open spec fn known_reason(r: Seq<char>) -> bool {
    r == "stop_loss"@ || r == "take_profit"@ || r == "opposite_signal"@ || r == "end_of_data"@
}

pub open spec fn reasons_known(t: Seq<TradeV>) -> bool {
    forall|i: int| 0 <= i < t.len() ==> known_reason(#[trigger] t[i].exit_reason)
}

proof fn lemma_bar_keeps_reasons(st: SimState, bar: Candle, reading: BarReading, s: Strategy, rules: Seq<Rule>)
    requires
        reasons_known(st.trades),
        bar_spec(st, bar, reading, s, rules) is Some,
    ensures
        reasons_known(bar_spec(st, bar, reading, s, rules).unwrap().trades),
{
    let a = manage_spec(st, bar).unwrap();
    assert(reasons_known(a.trades)) by {
        match st.pos {
            Some(pos) => match exit_spec(pos, bar) {
                Some((exit, reason)) => {
                    assert(known_reason(reason));
                    assert forall|i: int| 0 <= i < a.trades.len() implies known_reason(
                        #[trigger] a.trades[i].exit_reason,
                    ) by {
                        if i < st.trades.len() {
                            assert(a.trades[i] == st.trades[i]);
                        }
                    }
                },
                None => {},
            },
            None => {},
        }
    }
    let b = entry_spec(a, bar, reading, s, rules).unwrap();
    assert(reasons_known(b.trades)) by {
        match signal_spec(rules, reading.fired@, reading.indicators) {
            Ok(Some((side, price, strength, _))) => {
                if dv_lt(int_dv(0), strength) {
                    let c = reverse_spec(a, bar, side).unwrap();
                    assert(reasons_known(c.trades)) by {
                        assert forall|i: int| 0 <= i < c.trades.len() implies known_reason(
                            #[trigger] c.trades[i].exit_reason,
                        ) by {
                            if i < a.trades.len() {
                                assert(c.trades[i] == a.trades[i]);
                            }
                        }
                    }
                    assert(b.trades == c.trades);
                }
            },
            _ => {},
        }
    }
    assert(mark_spec(b, bar).unwrap().trades == b.trades);
}

/// Every trade of a replay closes at its stop-loss, its take-profit, on an
/// opposite signal or at the end of the data.
pub proof fn law_exit_reasons(candles: Seq<Candle>, readings: Seq<BarReading>, s: Strategy, rules: Seq<Rule>, k: nat)
    requires
        run_bars(candles, readings, s, rules, k) is Some,
    ensures
        reasons_known(run_bars(candles, readings, s, rules, k).unwrap().trades),
        match finish_spec(run_bars(candles, readings, s, rules, k).unwrap(), candles.last()) {
            Some((_, t)) => reasons_known(t),
            None => true,
        },
    decreases k,
{
    let st = run_bars(candles, readings, s, rules, k).unwrap();
    if k > 0 {
        law_exit_reasons(candles, readings, s, rules, (k - 1) as nat);
        lemma_bar_keeps_reasons(
            run_bars(candles, readings, s, rules, (k - 1) as nat).unwrap(),
            candles[crate::backtest::WARMUP + k - 1],
            readings[k - 1],
            s,
            rules,
        );
    } else {
        assert(st.trades =~= Seq::<TradeV>::empty());
    }
    match finish_spec(st, candles.last()) {
        Some((_, t)) => {
            assert forall|i: int| 0 <= i < t.len() implies known_reason(#[trigger] t[i].exit_reason) by {
                if i < st.trades.len() {
                    assert(t[i] == st.trades[i]);
                }
            }
        },
        None => {},
    }
}

/// Without a rule that fired, the fired weight stays zero.
proof fn lemma_no_fire_no_weight(rules: Seq<Rule>, fired: Seq<bool>, n: nat)
    requires
        n <= rules.len(),
        forall|k: int| 0 <= k < n ==> !fires(rules, fired, k),
        weight_sums(rules, fired, n) is Some,
    ensures
        weight_sums(rules, fired, n).unwrap().1 == int_dv(0),
    decreases n,
{
    if n > 0 {
        lemma_no_fire_no_weight(rules, fired, (n - 1) as nat);
    }
}

/// A signal needs at least one enabled rule whose expression was true.
pub proof fn law_signal_needs_a_rule(rules: Seq<Rule>, fired: Seq<bool>, ind: Indicators)
    requires
        signal_spec(rules, fired, ind) matches Ok(Some(_)),
    ensures
        exists|k: int| 0 <= k < rules.len() && #[trigger] fires(rules, fired, k),
{
    if !(exists|k: int| 0 <= k < rules.len() && #[trigger] fires(rules, fired, k)) {
        lemma_no_fire_no_weight(rules, fired, rules.len());
        let h = weight_sums(rules, fired, rules.len()).unwrap().1;
        assert(dv_eq(h, int_dv(0)));
    }
}

/// Every event the assessment lists concerns one of the currencies.
pub proof fn law_news_concerns_currencies(
    events: Seq<NewsEvent>,
    currencies: Seq<String>,
    now_secs: int,
    now_nanos: int,
    k: int,
)
    requires
        k != 0,
    ensures
        forall|i: int|
            0 <= i < news_list(events, currencies, now_secs, now_nanos, k).len() ==> concerns(
                #[trigger] news_list(events, currencies, now_secs, now_nanos, k)[i],
                currencies,
            ),
    decreases events.len(),
{
    if events.len() > 0 {
        law_news_concerns_currencies(events.drop_last(), currencies, now_secs, now_nanos, k);
        let rest = news_list(events.drop_last(), currencies, now_secs, now_nanos, k);
        let l = news_list(events, currencies, now_secs, now_nanos, k);
        assert forall|i: int| 0 <= i < l.len() implies concerns(#[trigger] l[i], currencies) by {
            if i < rest.len() {
                assert(l[i] == rest[i]);
            } else {
                assert(news_class(events.last(), currencies, now_secs, now_nanos) == k);
            }
        }
    }
}

/// A secret is never shown beyond its last four characters.
pub proof fn law_secrets_masked(key: Seq<char>, value: Seq<char>)
    requires
        sensitive(key),
        value.len() > 0,
    ensures
        shown_value(key, value) == "••••"@ + tail4(value),
        tail4(value).len() <= 4,
        tail4(value).is_suffix_of(value),
{
    let t = tail4(value);
    if value.len() <= 4 {
        assert(value.subrange(0, value.len() as int) =~= value);
    } else {
        assert(value.subrange(value.len() - t.len(), value.len() as int) =~= t);
    }
}

/// A backtest's closed trades are exactly its winning and losing trades.
pub proof fn law_backtest_counts(
    r: crate::backtest::BacktestResult,
    candles: Seq<Candle>,
    readings: Seq<BarReading>,
    s: Strategy,
    rules: Seq<Rule>,
)
    requires
        crate::backtest::result_of(r, candles, readings, s, rules),
    ensures
        r.closed_trades == r.winning_trades + r.losing_trades,
{
    let st = run_bars(candles, readings, s, rules, (candles.len() - crate::backtest::WARMUP) as nat).unwrap();
    let (eq, t) = finish_spec(st, candles.last()).unwrap();
    law_wins_and_losses(t);
}

/// A read of the runtime configuration gives back what the last write to
/// that key wrote, and a write leaves every other key as it was.
pub proof fn law_read_after_write(
    m: Map<Seq<char>, Seq<char>>,
    key: Seq<char>,
    value: Seq<char>,
    other: Seq<char>,
)
    ensures
        lookup(m.insert(key, value), key) == value,
        other != key ==> lookup(m.insert(key, value), other) == lookup(m, other),
{
}

/// Persisted settings override the environment's defaults; a key with no
/// persisted value keeps its default.
pub proof fn law_persisted_values_win(
    defaults: Seq<(Seq<char>, Seq<char>)>,
    persisted: Seq<(Seq<char>, Seq<char>)>,
    key: Seq<char>,
)
    ensures
        lookup(pairs_map(defaults).union_prefer_right(pairs_map(persisted)), key) == if pairs_map(
            persisted,
        ).contains_key(key) {
            pairs_map(persisted)[key]
        } else {
            lookup(pairs_map(defaults), key)
        },
{
}

/// Each list of the assessment is the same over the calendar and over its
/// relevant events alone.
proof fn lemma_lists_of_relevant(events: Seq<NewsEvent>, currencies: Seq<String>, now_secs: int, now_nanos: int, k: int)
    requires
        k != 0,
    ensures
        news_list(events, currencies, now_secs, now_nanos, k) == news_list(
            relevant_events(events, currencies, now_secs, now_nanos),
            currencies,
            now_secs,
            now_nanos,
            k,
        ),
    decreases events.len(),
{
    if events.len() > 0 {
        let rest = events.drop_last();
        lemma_lists_of_relevant(rest, currencies, now_secs, now_nanos, k);
        let r = relevant_events(events, currencies, now_secs, now_nanos);
        if news_class(events.last(), currencies, now_secs, now_nanos) != 0 {
            assert(r.drop_last() =~= relevant_events(rest, currencies, now_secs, now_nanos));
        }
    }
}

/// Events for other currencies, or whose date does not parse, or that are
/// neither imminent nor just released, change nothing: two calendars with
/// the same relevant events give the same assessment.
pub proof fn law_irrelevant_news_ignored(
    a1: NewsAssessment,
    a2: NewsAssessment,
    events1: Seq<NewsEvent>,
    events2: Seq<NewsEvent>,
    currencies: Seq<String>,
    now_secs: int,
    now_nanos: int,
)
    requires
        relevant_events(events1, currencies, now_secs, now_nanos) == relevant_events(
            events2,
            currencies,
            now_secs,
            now_nanos,
        ),
        assessment_of(a1, currencies, events1, now_secs, now_nanos),
        assessment_of(a2, currencies, events2, now_secs, now_nanos),
    ensures
        a1.status@ == a2.status@,
        a1.upcoming_high_impact@ == a2.upcoming_high_impact@,
        a1.upcoming_medium_impact@ == a2.upcoming_medium_impact@,
        a1.recently_released@ == a2.recently_released@,
        a1.summary@ == a2.summary@,
        a1.recommendation@ == a2.recommendation@,
{
    lemma_lists_of_relevant(events1, currencies, now_secs, now_nanos, 1);
    lemma_lists_of_relevant(events2, currencies, now_secs, now_nanos, 1);
    lemma_lists_of_relevant(events1, currencies, now_secs, now_nanos, 2);
    lemma_lists_of_relevant(events2, currencies, now_secs, now_nanos, 2);
    lemma_lists_of_relevant(events1, currencies, now_secs, now_nanos, 3);
    lemma_lists_of_relevant(events2, currencies, now_secs, now_nanos, 3);
}

/// An event for another currency, or whose date does not parse, joins no
/// list.
pub proof fn law_news_needs_currency_and_date(e: NewsEvent, currencies: Seq<String>, now_secs: int, now_nanos: int)
    requires
        !concerns(e, currencies) || crate::news::rfc3339_offset_nanos(e.date@, now_secs, now_nanos) is None,
    ensures
        news_class(e, currencies, now_secs, now_nanos) == 0,
{
}

/// An open position that neither its stop nor its target closes on a bar is
/// closed at that bar's close when the rules fire a signal of positive
/// strength for the other side.
pub proof fn law_opposite_signal_closes(
    st: SimState,
    bar: Candle,
    reading: BarReading,
    s: Strategy,
    rules: Seq<Rule>,
    pos: PosV,
    side: crate::domain::Side,
    price: DecV,
    strength: DecV,
    why: Seq<char>,
)
    requires
        st.pos == Some(pos),
        exit_spec(pos, bar) is None,
        signal_spec(rules, reading.fired@, reading.indicators) == Ok::<_, crate::engine::EngineError>(
            Some((side, price, strength, why)),
        ),
        side != pos.side,
        dv_lt(int_dv(0), strength),
        bar_spec(st, bar, reading, s, rules) is Some,
    ensures
        ({
            let t = bar_spec(st, bar, reading, s, rules).unwrap().trades;
            &&& t.len() == st.trades.len() + 1
            &&& t.last().exit_reason == "opposite_signal"@
            &&& t.last().exit_ts == bar.ts as int
            &&& t.last().exit_price == bar.close@
            &&& t.last().entry_ts == pos.entry_ts
            &&& t.last().side == pos.side
        }),
{
    let a = manage_spec(st, bar).unwrap();
    assert(a == st);
    let c = reverse_spec(a, bar, side).unwrap();
    let b = entry_spec(a, bar, reading, s, rules).unwrap();
    assert(b.trades == c.trades);
    assert(mark_spec(b, bar).unwrap().trades == b.trades);
}

/// The balance after adding each trade's profit in order, as the replay
/// adds them.
pub open spec fn equity_after(start: DecV, t: Seq<TradeV>) -> Option<DecV>
    decreases t.len(),
{
    if t.len() == 0 {
        Some(start)
    } else {
        match equity_after(start, t.drop_last()) {
            None => None,
            Some(e) => crate::decimal::decimal_checked_add(e, t.last().pnl),
        }
    }
}

pub open spec fn equity_tracks_trades(st: SimState) -> bool {
    equity_after(initial_balance(), st.trades) == Some(st.equity)
}

proof fn lemma_push_trade(st: SimState, t: TradeV, eq: DecV)
    requires
        equity_tracks_trades(st),
        crate::decimal::decimal_checked_add(st.equity, t.pnl) == Some(eq),
    ensures
        equity_after(initial_balance(), st.trades.push(t)) == Some(eq),
{
    assert(st.trades.push(t).drop_last() =~= st.trades);
}

proof fn lemma_bar_keeps_equity(st: SimState, bar: Candle, reading: BarReading, s: Strategy, rules: Seq<Rule>)
    requires
        equity_tracks_trades(st),
        bar_spec(st, bar, reading, s, rules) is Some,
    ensures
        equity_tracks_trades(bar_spec(st, bar, reading, s, rules).unwrap()),
{
    let a = manage_spec(st, bar).unwrap();
    match st.pos {
        Some(pos) => match exit_spec(pos, bar) {
            Some((exit, reason)) => {
                let pnl = crate::backtest::pnl_spec(pos, exit).unwrap();
                lemma_push_trade(st, closed_trade(pos, bar.ts as int, exit, pnl, reason), a.equity);
            },
            None => {},
        },
        None => {},
    }
    assert(equity_tracks_trades(a));
    let b = entry_spec(a, bar, reading, s, rules).unwrap();
    match signal_spec(rules, reading.fired@, reading.indicators) {
        Ok(Some((side, price, strength, _))) => {
            if dv_lt(int_dv(0), strength) {
                let c = reverse_spec(a, bar, side).unwrap();
                match a.pos {
                    Some(pos) => if pos.side != side {
                        let pnl = crate::backtest::pnl_spec(pos, bar.close@).unwrap();
                        lemma_push_trade(
                            a,
                            closed_trade(pos, bar.ts as int, bar.close@, pnl, "opposite_signal"@),
                            c.equity,
                        );
                    },
                    None => {},
                }
                assert(equity_tracks_trades(c));
                assert(b == open_spec(c, bar, s, side, price, strength).unwrap());
                assert(b.trades == c.trades && b.equity == c.equity);
            }
        },
        _ => {},
    }
    assert(equity_tracks_trades(b));
    let m = mark_spec(b, bar).unwrap();
    assert(m.trades == b.trades && m.equity == b.equity);
}

proof fn lemma_run_keeps_equity(candles: Seq<Candle>, readings: Seq<BarReading>, s: Strategy, rules: Seq<Rule>, k: nat)
    requires
        run_bars(candles, readings, s, rules, k) is Some,
    ensures
        equity_tracks_trades(run_bars(candles, readings, s, rules, k).unwrap()),
    decreases k,
{
    if k > 0 {
        lemma_run_keeps_equity(candles, readings, s, rules, (k - 1) as nat);
        lemma_bar_keeps_equity(
            run_bars(candles, readings, s, rules, (k - 1) as nat).unwrap(),
            candles[crate::backtest::WARMUP + k - 1],
            readings[k - 1],
            s,
            rules,
        );
    } else {
        assert(start_state().trades =~= Seq::<TradeV>::empty());
    }
}

/// A backtest's final equity is the initial balance with each closed
/// trade's profit added in the order the trades closed.
pub proof fn law_equity_is_running_sum(
    r: crate::backtest::BacktestResult,
    candles: Seq<Candle>,
    readings: Seq<BarReading>,
    s: Strategy,
    rules: Seq<Rule>,
)
    requires
        crate::backtest::result_of(r, candles, readings, s, rules),
    ensures
        equity_after(initial_balance(), crate::backtest::trade_views(r.trades@)) == Some(r.final_equity@),
{
    let k = (candles.len() - crate::backtest::WARMUP) as nat;
    lemma_run_keeps_equity(candles, readings, s, rules, k);
    let st = run_bars(candles, readings, s, rules, k).unwrap();
    match st.pos {
        Some(p) => {
            let pnl = crate::backtest::pnl_spec(p, candles.last().close@).unwrap();
            let (eq, t) = finish_spec(st, candles.last()).unwrap();
            lemma_push_trade(st, closed_trade(p, candles.last().ts as int, candles.last().close@, pnl, "end_of_data"@), eq);
        },
        None => {},
    }
}

/// `<=` on decimal values is transitive.
pub proof fn lemma_le_transitive(a: DecV, b: DecV, c: DecV)
    requires
        dv_le(a, b),
        dv_le(b, c),
    ensures
        dv_le(a, c),
{
    crate::decimal::lemma_pow10_positive(a.2);
    crate::decimal::lemma_pow10_positive(b.2);
    crate::decimal::lemma_pow10_positive(c.2);
    let (na, nb, nc) = (dv_num(a), dv_num(b), dv_num(c));
    let (pa, pb, pc) = (pow10(a.2), pow10(b.2), pow10(c.2));
    assert(na * pc <= nc * pa) by (nonlinear_arith)
        requires
            na * pb <= nb * pa,
            nb * pc <= nc * pb,
            pa >= 1,
            pb >= 1,
            pc >= 1,
    {
        assert(na * pb * pc <= nb * pa * pc);
        assert(nb * pc * pa <= nc * pb * pa);
        assert(na * pc * pb <= nc * pa * pb);
    }
}

/// The peak is at least every marked equity of the curve.
pub open spec fn peak_bounds_curve(st: SimState) -> bool {
    forall|i: int| 0 <= i < st.curve.len() ==> dv_le(#[trigger] st.curve[i].1, st.peak)
}

proof fn lemma_bar_keeps_peak(st: SimState, bar: Candle, reading: BarReading, s: Strategy, rules: Seq<Rule>)
    requires
        peak_bounds_curve(st),
        bar_spec(st, bar, reading, s, rules) is Some,
    ensures
        peak_bounds_curve(bar_spec(st, bar, reading, s, rules).unwrap()),
{
    let a = manage_spec(st, bar).unwrap();
    assert(a.curve == st.curve && a.peak == st.peak);
    let b = entry_spec(a, bar, reading, s, rules).unwrap();
    assert(b.curve == a.curve && b.peak == a.peak) by {
        match signal_spec(rules, reading.fired@, reading.indicators) {
            Ok(Some((side, price, strength, _))) => {
                if dv_lt(int_dv(0), strength) {
                    let c = reverse_spec(a, bar, side).unwrap();
                    assert(c.curve == a.curve && c.peak == a.peak);
                }
            },
            _ => {},
        }
    }
    let m = mark_spec(b, bar).unwrap();
    let mk = m.curve.last().1;
    assert(m.curve == b.curve.push((bar.ts as int, mk)));
    if dv_lt(b.peak, mk) {
        assert(m.peak == mk);
        assert forall|i: int| 0 <= i < m.curve.len() implies dv_le(#[trigger] m.curve[i].1, m.peak) by {
            if i < b.curve.len() {
                assert(m.curve[i] == b.curve[i]);
                assert(dv_le(b.curve[i].1, b.peak));
                assert(dv_le(b.peak, mk));
                lemma_le_transitive(b.curve[i].1, b.peak, mk);
            }
        }
    } else {
        assert(m.peak == b.peak);
        assert forall|i: int| 0 <= i < m.curve.len() implies dv_le(#[trigger] m.curve[i].1, m.peak) by {
            if i < b.curve.len() {
                assert(m.curve[i] == b.curve[i]);
            } else {
                lemma_lt_le(b.peak, mk);
            }
        }
    }
}

/// After any number of bars, the peak equity is at least every marked
/// equity on the curve, so each drawdown is measured from the running peak.
pub proof fn law_peak_bounds_curve(candles: Seq<Candle>, readings: Seq<BarReading>, s: Strategy, rules: Seq<Rule>, k: nat)
    requires
        run_bars(candles, readings, s, rules, k) is Some,
    ensures
        peak_bounds_curve(run_bars(candles, readings, s, rules, k).unwrap()),
    decreases k,
{
    if k > 0 {
        law_peak_bounds_curve(candles, readings, s, rules, (k - 1) as nat);
        lemma_bar_keeps_peak(
            run_bars(candles, readings, s, rules, (k - 1) as nat).unwrap(),
            candles[crate::backtest::WARMUP + k - 1],
            readings[k - 1],
            s,
            rules,
        );
    }
}

proof fn lemma_relevant_concat(
    a: Seq<NewsEvent>,
    b: Seq<NewsEvent>,
    currencies: Seq<String>,
    now_secs: int,
    now_nanos: int,
)
    ensures
        relevant_events(a + b, currencies, now_secs, now_nanos) == relevant_events(a, currencies, now_secs, now_nanos)
            + relevant_events(b, currencies, now_secs, now_nanos),
    decreases b.len(),
{
    if b.len() == 0 {
        assert(a + b =~= a);
        assert(relevant_events(a, currencies, now_secs, now_nanos) + relevant_events(
            b,
            currencies,
            now_secs,
            now_nanos,
        ) =~= relevant_events(a, currencies, now_secs, now_nanos));
    } else {
        let b0 = b.drop_last();
        lemma_relevant_concat(a, b0, currencies, now_secs, now_nanos);
        assert((a + b).drop_last() =~= a + b0);
        assert((a + b).last() == b.last());
        let ra = relevant_events(a, currencies, now_secs, now_nanos);
        let rb0 = relevant_events(b0, currencies, now_secs, now_nanos);
        if news_class(b.last(), currencies, now_secs, now_nanos) != 0 {
            assert((ra + rb0).push(b.last()) =~= ra + rb0.push(b.last()));
        }
    }
}

proof fn lemma_irrelevant_only(x: Seq<NewsEvent>, currencies: Seq<String>, now_secs: int, now_nanos: int)
    requires
        forall|i: int|
            0 <= i < x.len() ==> !concerns(#[trigger] x[i], currencies) || crate::news::rfc3339_offset_nanos(
                x[i].date@,
                now_secs,
                now_nanos,
            ) is None,
    ensures
        relevant_events(x, currencies, now_secs, now_nanos) == Seq::<NewsEvent>::empty(),
    decreases x.len(),
{
    if x.len() > 0 {
        let x0 = x.drop_last();
        assert forall|i: int| 0 <= i < x0.len() implies !concerns(#[trigger] x0[i], currencies)
            || crate::news::rfc3339_offset_nanos(x0[i].date@, now_secs, now_nanos) is None by {
            assert(x0[i] == x[i]);
        }
        lemma_irrelevant_only(x0, currencies, now_secs, now_nanos);
        let e = x[x.len() - 1];
        law_news_needs_currency_and_date(e, currencies, now_secs, now_nanos);
    }
}

/// Inserting, anywhere in a calendar, events for other currencies or with
/// dates that do not parse leaves the assessment as it was.
pub proof fn law_inserted_irrelevant_news_ignored(
    a1: NewsAssessment,
    a2: NewsAssessment,
    before: Seq<NewsEvent>,
    extra: Seq<NewsEvent>,
    after: Seq<NewsEvent>,
    currencies: Seq<String>,
    now_secs: int,
    now_nanos: int,
)
    requires
        forall|i: int|
            0 <= i < extra.len() ==> !concerns(#[trigger] extra[i], currencies) || crate::news::rfc3339_offset_nanos(
                extra[i].date@,
                now_secs,
                now_nanos,
            ) is None,
        assessment_of(a1, currencies, before + after, now_secs, now_nanos),
        assessment_of(a2, currencies, before + extra + after, now_secs, now_nanos),
    ensures
        a1.status@ == a2.status@,
        a1.upcoming_high_impact@ == a2.upcoming_high_impact@,
        a1.upcoming_medium_impact@ == a2.upcoming_medium_impact@,
        a1.recently_released@ == a2.recently_released@,
        a1.summary@ == a2.summary@,
        a1.recommendation@ == a2.recommendation@,
{
    lemma_irrelevant_only(extra, currencies, now_secs, now_nanos);
    lemma_relevant_concat(before, after, currencies, now_secs, now_nanos);
    lemma_relevant_concat(before, extra, currencies, now_secs, now_nanos);
    lemma_relevant_concat(before + extra, after, currencies, now_secs, now_nanos);
    let rb = relevant_events(before, currencies, now_secs, now_nanos);
    assert(rb + Seq::<NewsEvent>::empty() =~= rb);
    law_irrelevant_news_ignored(a1, a2, before + after, before + extra + after, currencies, now_secs, now_nanos);
}

/// A backtest is a function of its inputs: two results of the same replay
/// agree in every field.
pub proof fn law_backtest_deterministic(
    r1: crate::backtest::BacktestResult,
    r2: crate::backtest::BacktestResult,
    candles: Seq<Candle>,
    readings: Seq<BarReading>,
    s: Strategy,
    rules: Seq<Rule>,
)
    requires
        crate::backtest::result_of(r1, candles, readings, s, rules),
        crate::backtest::result_of(r2, candles, readings, s, rules),
    ensures
        r1.symbol@ == r2.symbol@,
        r1.initial_balance@ == r2.initial_balance@,
        r1.final_equity@ == r2.final_equity@,
        r1.total_return_pct@ == r2.total_return_pct@,
        crate::backtest::trade_views(r1.trades@) == crate::backtest::trade_views(r2.trades@),
        r1.closed_trades == r2.closed_trades,
        r1.winning_trades == r2.winning_trades,
        r1.losing_trades == r2.losing_trades,
        r1.win_rate@ == r2.win_rate@,
        r1.total_pnl@ == r2.total_pnl@,
        r1.avg_pnl@ == r2.avg_pnl@,
        r1.max_drawdown_pct@ == r2.max_drawdown_pct@,
        crate::backtest::curve_views(r1.equity_curve@) == crate::backtest::curve_views(r2.equity_curve@),
{
}


/// The highest of the starting balance and the first `n` marked equities of
/// a curve.
pub open spec fn running_peak(curve: Seq<(int, DecV)>, n: nat) -> DecV
    decreases n,
{
    if n == 0 {
        initial_balance()
    } else {
        let p = running_peak(curve, (n - 1) as nat);
        if dv_lt(p, curve[n - 1].1) {
            curve[n - 1].1
        } else {
            p
        }
    }
}

/// The drawdown of the curve's point `i` from the peak reached up to it.
pub open spec fn point_drawdown(curve: Seq<(int, DecV)>, i: int) -> Option<DecV> {
    drawdown_spec(running_peak(curve, (i + 1) as nat), curve[i].1)
}

/// The state's peak is the curve's running peak, and its maximum drawdown
/// is at least the drawdown of every point and is one of them (or zero).
pub open spec fn worst_drawdown_kept(st: SimState) -> bool {
    &&& st.peak == running_peak(st.curve, st.curve.len())
    &&& forall|i: int|
        0 <= i < st.curve.len() ==> (#[trigger] point_drawdown(st.curve, i)) is Some && dv_le(
            point_drawdown(st.curve, i).unwrap(),
            st.max_dd,
        )
    &&& st.max_dd == int_dv(0) || exists|i: int|
        0 <= i < st.curve.len() && #[trigger] point_drawdown(st.curve, i) == Some(st.max_dd)
}

proof fn lemma_running_peak_prefix(curve: Seq<(int, DecV)>, x: (int, DecV), n: nat)
    requires
        n <= curve.len(),
    ensures
        running_peak(curve.push(x), n) == running_peak(curve, n),
    decreases n,
{
    if n > 0 {
        lemma_running_peak_prefix(curve, x, (n - 1) as nat);
        assert(curve.push(x)[n - 1] == curve[n - 1]);
    }
}

proof fn lemma_bar_keeps_worst(st: SimState, bar: Candle, reading: BarReading, s: Strategy, rules: Seq<Rule>)
    requires
        worst_drawdown_kept(st),
        bar_spec(st, bar, reading, s, rules) is Some,
    ensures
        worst_drawdown_kept(bar_spec(st, bar, reading, s, rules).unwrap()),
{
    let a = manage_spec(st, bar).unwrap();
    assert(a.curve == st.curve && a.peak == st.peak && a.max_dd == st.max_dd);
    let b = entry_spec(a, bar, reading, s, rules).unwrap();
    assert(b.curve == a.curve && b.peak == a.peak && b.max_dd == a.max_dd) by {
        match signal_spec(rules, reading.fired@, reading.indicators) {
            Ok(Some((side, price, strength, _))) => {
                if dv_lt(int_dv(0), strength) {
                    let c = reverse_spec(a, bar, side).unwrap();
                    assert(c.curve == a.curve && c.peak == a.peak && c.max_dd == a.max_dd);
                }
            },
            _ => {},
        }
    }
    let m = mark_spec(b, bar).unwrap();
    let n = b.curve.len();
    let mk = m.curve.last().1;
    assert(m.curve == b.curve.push((bar.ts as int, mk)));
    assert(m.peak == (if dv_lt(b.peak, mk) {
        mk
    } else {
        b.peak
    }));
    let dd = drawdown_spec(m.peak, mk).unwrap();
    assert(drawdown_spec(m.peak, mk) is Some);
    assert(m.max_dd == (if dv_lt(b.max_dd, dd) {
        dd
    } else {
        b.max_dd
    }));
    lemma_running_peak_prefix(b.curve, (bar.ts as int, mk), n);
    assert(m.curve[n as int].1 == mk);
    assert(running_peak(m.curve, n + 1) == m.peak);
    assert(point_drawdown(m.curve, n as int) == Some(dd));
    assert(dv_le(b.max_dd, m.max_dd)) by {
        lemma_lt_le(b.max_dd, dd);
        if dv_lt(b.max_dd, dd) {
        } else {
            assert(dv_le(b.max_dd, b.max_dd));
        }
    }
    assert(dv_le(dd, m.max_dd)) by {
        lemma_lt_le(b.max_dd, dd);
        if dv_lt(b.max_dd, dd) {
            assert(dv_le(dd, dd));
        }
    }
    assert forall|i: int| 0 <= i < m.curve.len() implies (#[trigger] point_drawdown(m.curve, i)) is Some && dv_le(
        point_drawdown(m.curve, i).unwrap(),
        m.max_dd,
    ) by {
        if i < n {
            lemma_running_peak_prefix(b.curve, (bar.ts as int, mk), (i + 1) as nat);
            assert(m.curve[i] == b.curve[i]);
            assert(point_drawdown(m.curve, i) == point_drawdown(b.curve, i));
            assert(point_drawdown(b.curve, i) is Some);
            lemma_le_transitive(point_drawdown(b.curve, i).unwrap(), b.max_dd, m.max_dd);
        } else {
            assert(i == n);
        }
    }
    if m.max_dd != int_dv(0) {
        if dv_lt(b.max_dd, dd) {
            assert(point_drawdown(m.curve, n as int) == Some(m.max_dd));
        } else {
            assert(m.max_dd == b.max_dd);
            let j = choose|j: int| 0 <= j < b.curve.len() && #[trigger] point_drawdown(b.curve, j) == Some(b.max_dd);
            lemma_running_peak_prefix(b.curve, (bar.ts as int, mk), (j + 1) as nat);
            assert(m.curve[j] == b.curve[j]);
            assert(point_drawdown(m.curve, j) == Some(m.max_dd));
        }
    }
}

proof fn lemma_run_keeps_worst(candles: Seq<Candle>, readings: Seq<BarReading>, s: Strategy, rules: Seq<Rule>, k: nat)
    requires
        run_bars(candles, readings, s, rules, k) is Some,
    ensures
        worst_drawdown_kept(run_bars(candles, readings, s, rules, k).unwrap()),
    decreases k,
{
    if k == 0 {
        assert(start_state().curve.len() == 0);
    } else {
        lemma_run_keeps_worst(candles, readings, s, rules, (k - 1) as nat);
        lemma_bar_keeps_worst(
            run_bars(candles, readings, s, rules, (k - 1) as nat).unwrap(),
            candles[crate::backtest::WARMUP + k - 1],
            readings[k - 1],
            s,
            rules,
        );
    }
}

/// The reported maximum drawdown is the worst dip of the equity curve: it is
/// at least the drawdown of every point from the peak reached up to that
/// point (the starting balance included), and it is the drawdown of one of
/// the points, or zero.
pub proof fn law_max_drawdown_is_worst(
    r: crate::backtest::BacktestResult,
    candles: Seq<Candle>,
    readings: Seq<BarReading>,
    s: Strategy,
    rules: Seq<Rule>,
)
    requires
        crate::backtest::result_of(r, candles, readings, s, rules),
    ensures
        forall|i: int|
            0 <= i < r.equity_curve@.len() ==> (#[trigger] point_drawdown(
                crate::backtest::curve_views(r.equity_curve@),
                i,
            )) is Some && dv_le(
                point_drawdown(crate::backtest::curve_views(r.equity_curve@), i).unwrap(),
                r.max_drawdown_pct@,
            ),
        r.max_drawdown_pct@ == int_dv(0) || exists|i: int|
            0 <= i < r.equity_curve@.len() && #[trigger] point_drawdown(
                crate::backtest::curve_views(r.equity_curve@),
                i,
            ) == Some(r.max_drawdown_pct@),
{
    let k = (candles.len() - crate::backtest::WARMUP) as nat;
    lemma_run_keeps_worst(candles, readings, s, rules, k);
    let st = run_bars(candles, readings, s, rules, k).unwrap();
    assert(crate::backtest::curve_views(r.equity_curve@) == st.curve);
    assert(r.equity_curve@.len() == st.curve.len());
}


/// The event concerns one of the currencies and falls in the news window:
/// released within the last 15 minutes or due within the next 30.
pub open spec fn in_news_window(e: NewsEvent, currencies: Seq<String>, now_secs: int, now_nanos: int) -> bool {
    (exists|c: int| 0 <= c < currencies.len() && #[trigger] currencies[c]@ == e.country@) && match rfc3339_offset_nanos(
        e.date@,
        now_secs,
        now_nanos,
    ) {
        Some(d) => -900_000_000_000 <= d <= 1_800_000_000_000 && d != 0,
        None => false,
    }
}

/// Some event in the news window has the given impact.
pub open spec fn window_has_impact(
    events: Seq<NewsEvent>,
    currencies: Seq<String>,
    now_secs: int,
    now_nanos: int,
    impact: Seq<char>,
) -> bool {
    exists|i: int|
        0 <= i < events.len() && #[trigger] in_news_window(events[i], currencies, now_secs, now_nanos)
            && events[i].impact@ == impact
}

proof fn lemma_list_members(
    events: Seq<NewsEvent>,
    currencies: Seq<String>,
    now_secs: int,
    now_nanos: int,
    k: int,
    impact: Seq<char>,
)
    ensures
        news_list(events, currencies, now_secs, now_nanos, k).len() > 0 <==> exists|i: int|
            0 <= i < events.len() && #[trigger] news_class(events[i], currencies, now_secs, now_nanos) == k,
        any_impact(news_list(events, currencies, now_secs, now_nanos, k), impact) <==> exists|i: int|
            0 <= i < events.len() && #[trigger] news_class(events[i], currencies, now_secs, now_nanos) == k
                && events[i].impact@ == impact,
    decreases events.len(),
{
    if events.len() > 0 {
        let init = events.drop_last();
        lemma_list_members(init, currencies, now_secs, now_nanos, k, impact);
        let rest = news_list(init, currencies, now_secs, now_nanos, k);
        let l = news_list(events, currencies, now_secs, now_nanos, k);
        let last = (events.len() - 1) as int;
        assert forall|i: int| 0 <= i < init.len() implies init[i] == events[i] by {}
        if news_class(events.last(), currencies, now_secs, now_nanos) == k {
            assert(l == rest.push(events.last()));
            if any_impact(l, impact) {
                let j = choose|j: int| 0 <= j < l.len() && #[trigger] l[j].impact@ == impact;
                if j == rest.len() {
                    assert(news_class(events[last], currencies, now_secs, now_nanos) == k);
                } else {
                    assert(l[j] == rest[j]);
                    assert(any_impact(rest, impact));
                    let i = choose|i: int|
                        0 <= i < init.len() && #[trigger] news_class(init[i], currencies, now_secs, now_nanos) == k
                            && init[i].impact@ == impact;
                    assert(news_class(events[i], currencies, now_secs, now_nanos) == k);
                }
            }
            if exists|i: int|
                0 <= i < events.len() && #[trigger] news_class(events[i], currencies, now_secs, now_nanos) == k
                    && events[i].impact@ == impact {
                let i = choose|i: int|
                    0 <= i < events.len() && #[trigger] news_class(events[i], currencies, now_secs, now_nanos) == k
                        && events[i].impact@ == impact;
                if i == last {
                    assert(l[rest.len() as int].impact@ == impact);
                } else {
                    assert(news_class(init[i], currencies, now_secs, now_nanos) == k);
                    let j = choose|j: int| 0 <= j < rest.len() && #[trigger] rest[j].impact@ == impact;
                    assert(l[j] == rest[j]);
                }
            }
            assert(news_class(events[last], currencies, now_secs, now_nanos) == k);
        } else {
            assert(l == rest);
            if exists|i: int|
                0 <= i < events.len() && #[trigger] news_class(events[i], currencies, now_secs, now_nanos) == k {
                let i = choose|i: int|
                    0 <= i < events.len() && #[trigger] news_class(events[i], currencies, now_secs, now_nanos) == k;
                assert(i != last);
                assert(news_class(init[i], currencies, now_secs, now_nanos) == k);
            }
            if exists|i: int|
                0 <= i < events.len() && #[trigger] news_class(events[i], currencies, now_secs, now_nanos) == k
                    && events[i].impact@ == impact {
                let i = choose|i: int|
                    0 <= i < events.len() && #[trigger] news_class(events[i], currencies, now_secs, now_nanos) == k
                        && events[i].impact@ == impact;
                assert(i != last);
                assert(news_class(init[i], currencies, now_secs, now_nanos) == k);
            }
            if exists|i: int|
                0 <= i < init.len() && #[trigger] news_class(init[i], currencies, now_secs, now_nanos) == k {
                let i = choose|i: int|
                    0 <= i < init.len() && #[trigger] news_class(init[i], currencies, now_secs, now_nanos) == k;
                assert(news_class(events[i], currencies, now_secs, now_nanos) == k);
            }
            if exists|i: int|
                0 <= i < init.len() && #[trigger] news_class(init[i], currencies, now_secs, now_nanos) == k
                    && init[i].impact@ == impact {
                let i = choose|i: int|
                    0 <= i < init.len() && #[trigger] news_class(init[i], currencies, now_secs, now_nanos) == k
                        && init[i].impact@ == impact;
                assert(news_class(events[i], currencies, now_secs, now_nanos) == k);
            }
        }
        if news_class(events.last(), currencies, now_secs, now_nanos) == k {
            if exists|i: int|
                0 <= i < init.len() && #[trigger] news_class(init[i], currencies, now_secs, now_nanos) == k {
                let i = choose|i: int|
                    0 <= i < init.len() && #[trigger] news_class(init[i], currencies, now_secs, now_nanos) == k;
                assert(news_class(events[i], currencies, now_secs, now_nanos) == k);
            }
        }
    }
}

/// An event in the window with impact High or Medium is classed as upcoming
/// of that impact or as just released; and the converse.
proof fn lemma_window_class(e: NewsEvent, currencies: Seq<String>, now_secs: int, now_nanos: int)
    ensures
        in_news_window(e, currencies, now_secs, now_nanos) && e.impact@ == "High"@ <==> news_class(
            e,
            currencies,
            now_secs,
            now_nanos,
        ) == 1 || (news_class(e, currencies, now_secs, now_nanos) == 3 && e.impact@ == "High"@),
        in_news_window(e, currencies, now_secs, now_nanos) && e.impact@ == "Medium"@ <==> news_class(
            e,
            currencies,
            now_secs,
            now_nanos,
        ) == 2 || (news_class(e, currencies, now_secs, now_nanos) == 3 && e.impact@ == "Medium"@),
{
    reveal_strlit("High");
    reveal_strlit("Medium");
    assert("High"@ != "Medium"@) by {
        assert("High"@.len() != "Medium"@.len());
    }
}

/// The news status follows the calendar: "danger" exactly when an event of
/// the currencies in the window (released within 15 minutes or due within
/// 30) has high impact; otherwise "caution" exactly when one has medium
/// impact; otherwise "clear".  The recommendation goes with the status.
pub proof fn law_news_status(
    a: NewsAssessment,
    currencies: Seq<String>,
    events: Seq<NewsEvent>,
    now_secs: int,
    now_nanos: int,
)
    requires
        assessment_of(a, currencies, events, now_secs, now_nanos),
    ensures
        a.status@ == "danger"@ <==> window_has_impact(events, currencies, now_secs, now_nanos, "High"@),
        a.status@ == "caution"@ <==> !window_has_impact(events, currencies, now_secs, now_nanos, "High"@)
            && window_has_impact(events, currencies, now_secs, now_nanos, "Medium"@),
        a.status@ == "clear"@ <==> !window_has_impact(events, currencies, now_secs, now_nanos, "High"@)
            && !window_has_impact(events, currencies, now_secs, now_nanos, "Medium"@),
        a.status@ == "caution"@ ==> a.recommendation@
            == "CAUTION: Medium-impact news is upcoming. Expect increased volatility. Use smaller position sizes and wider stops."@,
{
    reveal_strlit("danger");
    reveal_strlit("caution");
    reveal_strlit("clear");
    reveal_strlit("High");
    reveal_strlit("Medium");
    lemma_list_members(events, currencies, now_secs, now_nanos, 1, "High"@);
    lemma_list_members(events, currencies, now_secs, now_nanos, 2, "Medium"@);
    lemma_list_members(events, currencies, now_secs, now_nanos, 3, "High"@);
    lemma_list_members(events, currencies, now_secs, now_nanos, 3, "Medium"@);
    let high = news_list(events, currencies, now_secs, now_nanos, 1);
    let medium = news_list(events, currencies, now_secs, now_nanos, 2);
    let recent = news_list(events, currencies, now_secs, now_nanos, 3);
    let hot = high.len() > 0 || any_impact(recent, "High"@);
    let warm = medium.len() > 0 || any_impact(recent, "Medium"@);
    assert(hot <==> window_has_impact(events, currencies, now_secs, now_nanos, "High"@)) by {
        if hot {
            if high.len() > 0 {
                let i = choose|i: int|
                    0 <= i < events.len() && #[trigger] news_class(events[i], currencies, now_secs, now_nanos) == 1;
                lemma_window_class(events[i], currencies, now_secs, now_nanos);
            } else {
                let i = choose|i: int|
                    0 <= i < events.len() && #[trigger] news_class(events[i], currencies, now_secs, now_nanos) == 3
                        && events[i].impact@ == "High"@;
                lemma_window_class(events[i], currencies, now_secs, now_nanos);
            }
        }
        if window_has_impact(events, currencies, now_secs, now_nanos, "High"@) {
            let i = choose|i: int|
                0 <= i < events.len() && #[trigger] in_news_window(events[i], currencies, now_secs, now_nanos)
                    && events[i].impact@ == "High"@;
            lemma_window_class(events[i], currencies, now_secs, now_nanos);
        }
    }
    assert(warm <==> window_has_impact(events, currencies, now_secs, now_nanos, "Medium"@)) by {
        if warm {
            if medium.len() > 0 {
                let i = choose|i: int|
                    0 <= i < events.len() && #[trigger] news_class(events[i], currencies, now_secs, now_nanos) == 2;
                lemma_window_class(events[i], currencies, now_secs, now_nanos);
            } else {
                let i = choose|i: int|
                    0 <= i < events.len() && #[trigger] news_class(events[i], currencies, now_secs, now_nanos) == 3
                        && events[i].impact@ == "Medium"@;
                lemma_window_class(events[i], currencies, now_secs, now_nanos);
            }
        }
        if window_has_impact(events, currencies, now_secs, now_nanos, "Medium"@) {
            let i = choose|i: int|
                0 <= i < events.len() && #[trigger] in_news_window(events[i], currencies, now_secs, now_nanos)
                    && events[i].impact@ == "Medium"@;
            lemma_window_class(events[i], currencies, now_secs, now_nanos);
        }
    }
    assert("danger"@ != "caution"@ && "danger"@ != "clear"@ && "caution"@ != "clear"@) by {
        assert("danger"@[0] != "caution"@[0]);
        assert("danger"@[0] != "clear"@[0]);
        assert("caution"@[1] != "clear"@[1]);
    }
}


/// A symbol Deriv already knows (its trimmed form starts with frx, R_, BOOM,
/// CRASH, stp, JD, OTC, 1HZ or jump) is passed on trimmed and otherwise
/// unchanged; any other symbol becomes "frx" followed by the letters and
/// digits of its trimmed form, in order.
pub proof fn law_known_deriv_symbols_pass_through(symbol: Seq<char>)
    ensures
        "frx"@.is_prefix_of(trim_spec(symbol)) ==> deriv_symbol_spec(symbol) == trim_spec(symbol),
        "R_"@.is_prefix_of(trim_spec(symbol)) ==> deriv_symbol_spec(symbol) == trim_spec(symbol),
        "BOOM"@.is_prefix_of(trim_spec(symbol)) ==> deriv_symbol_spec(symbol) == trim_spec(symbol),
        "CRASH"@.is_prefix_of(trim_spec(symbol)) ==> deriv_symbol_spec(symbol) == trim_spec(symbol),
        "stp"@.is_prefix_of(trim_spec(symbol)) ==> deriv_symbol_spec(symbol) == trim_spec(symbol),
        "JD"@.is_prefix_of(trim_spec(symbol)) ==> deriv_symbol_spec(symbol) == trim_spec(symbol),
        "OTC"@.is_prefix_of(trim_spec(symbol)) ==> deriv_symbol_spec(symbol) == trim_spec(symbol),
        "1HZ"@.is_prefix_of(trim_spec(symbol)) ==> deriv_symbol_spec(symbol) == trim_spec(symbol),
        "jump"@.is_prefix_of(trim_spec(symbol)) ==> deriv_symbol_spec(symbol) == trim_spec(symbol),
        !("frx"@.is_prefix_of(trim_spec(symbol)) || "R_"@.is_prefix_of(trim_spec(symbol)) || "BOOM"@.is_prefix_of(
            trim_spec(symbol),
        ) || "CRASH"@.is_prefix_of(trim_spec(symbol)) || "stp"@.is_prefix_of(trim_spec(symbol))
            || "JD"@.is_prefix_of(trim_spec(symbol)) || "OTC"@.is_prefix_of(trim_spec(symbol)) || "1HZ"@.is_prefix_of(
            trim_spec(symbol),
        ) || "jump"@.is_prefix_of(trim_spec(symbol))) ==> deriv_symbol_spec(symbol) == "frx"@ + trim_spec(
            symbol,
        ).filter(|c: char| char_alphanumeric(c)),
{
    lemma_alnum_is_filter(trim_spec(symbol));
}

proof fn lemma_alnum_is_filter(t: Seq<char>)
    ensures
        alnum_only(t) == t.filter(|c: char| char_alphanumeric(c)),
    decreases t.len(),
{
    reveal(Seq::filter);
    if t.len() > 0 {
        lemma_alnum_is_filter(t.drop_last());
    }
}

/// An RSI(14) above 70 is read as a bearish signal, "RSI overbought"; with
/// no bullish signal beside it the next candle is called bearish.
pub proof fn law_overbought_rsi_reads_bearish(ind: Indicators, rsi: DecV)
    requires
        series_get(ind.rsi@, 14) == Some(rsi),
        dv_lt(int_dv(70), rsi),
    ensures
        bear_signals(ind).contains("RSI overbought"@),
        bull_signals(ind).len() == 0 ==> next_candle_spec(ind).0 == "bearish"@,
{
    assert(ind.rsi14() == rsi);
    assert(pow10(0) == 1);
    crate::decimal::lemma_pow10_positive(rsi.2);
    assert(!dv_lt(rsi, int_dv(30))) by {
        assert(dv_num(int_dv(70)) == 70 && int_dv(70).2 == 0);
        assert(dv_num(int_dv(30)) == 30 && int_dv(30).2 == 0);
        let p = pow10(rsi.2);
        let n = dv_num(rsi);
        assert(70 * p < n * 1);
        assert(p >= 1);
        assert(!(n * 1 < 30 * p)) by (nonlinear_arith)
            requires
                70 * p < n * 1,
                p >= 1,
        ;
    }
    let s0: Seq<Seq<char>> = Seq::empty();
    let s1 = push_if(s0, ind.has("shooting_star"@), "shooting star"@);
    let s2 = push_if(s1, ind.has("bearish_engulfing"@), "bearish engulfing"@);
    let s3 = push_if(s2, ind.has("evening_star"@), "evening star"@);
    let s4 = push_if(s3, ind.has("three_black_crows"@), "three black crows"@);
    let s5 = push_if(s4, ind.has("double_top"@), "double top"@);
    let s6 = push_if(s5, ind.has("support_breakdown"@), "support breakdown"@);
    let s7 = push_if(s6, !dv_lt(ind.rsi14(), int_dv(30)) && dv_lt(int_dv(70), ind.rsi14()), "RSI overbought"@);
    let s8 = push_if(s7, ema_structure_bear(ind), "EMA structure bearish"@);
    assert(bear_signals(ind) == s8);
    let k = s6.len() as int;
    assert(s7[k] == "RSI overbought"@);
    assert(s8[k] == "RSI overbought"@);
    assert(bear_signals(ind).len() > 0);
}


pub open spec fn count_if(c: bool) -> int {
    if c {
        1
    } else {
        0
    }
}

/// EMA(50) above EMA(200) and the price above EMA(50).
pub open spec fn ema_up(ind: Indicators) -> bool {
    match (series_get(ind.ema@, 50), series_get(ind.ema@, 200)) {
        (Some(e50), Some(e200)) => dv_lt(e200, e50) && dv_lt(e50, ind.price@),
        _ => false,
    }
}

/// EMA(50) below EMA(200) and the price below EMA(50).
pub open spec fn ema_down(ind: Indicators) -> bool {
    match (series_get(ind.ema@, 50), series_get(ind.ema@, 200)) {
        (Some(e50), Some(e200)) => dv_lt(e50, e200) && dv_lt(ind.price@, e50),
        _ => false,
    }
}

proof fn lemma_push_if_grows(s: Seq<Seq<char>>, c: bool, x: Seq<char>)
    ensures
        c ==> push_if(s, c, x).contains(x),
        push_if(s, c, x).len() == s.len() + count_if(c),
{
    if c {
        assert(push_if(s, c, x)[s.len() as int] == x);
    }
}

proof fn lemma_push_if_keeps(s: Seq<Seq<char>>, c: bool, x: Seq<char>, y: Seq<char>)
    ensures
        s.contains(y) ==> push_if(s, c, x).contains(y),
{
    if s.contains(y) {
        let i = choose|i: int| 0 <= i < s.len() && s[i] == y;
        assert(push_if(s, c, x)[i] == y);
    }
}

/// The bullish signals of the next-candle reading: each bullish pattern
/// (hammer, bullish engulfing, morning star, three white soldiers, double
/// bottom, resistance breakout), an RSI(14) below 30 and a rising EMA
/// structure counts once and is named in the list.
#[verifier::rlimit(40)]
pub proof fn law_bullish_signals(ind: Indicators)
    ensures
        bull_signals(ind).len() == count_if(ind.has("hammer"@)) + count_if(ind.has("bullish_engulfing"@)) + count_if(ind.has("morning_star"@)) + count_if(ind.has("three_white_soldiers"@)) + count_if(ind.has("double_bottom"@)) + count_if(ind.has("resistance_breakout"@)) + count_if(dv_lt(ind.rsi14(), int_dv(30))) + count_if(ema_up(ind)),
        ind.has("hammer"@) ==> bull_signals(ind).contains("hammer"@),
        ind.has("bullish_engulfing"@) ==> bull_signals(ind).contains("bullish engulfing"@),
        ind.has("morning_star"@) ==> bull_signals(ind).contains("morning star"@),
        ind.has("three_white_soldiers"@) ==> bull_signals(ind).contains("three white soldiers"@),
        ind.has("double_bottom"@) ==> bull_signals(ind).contains("double bottom"@),
        ind.has("resistance_breakout"@) ==> bull_signals(ind).contains("resistance breakout"@),
        dv_lt(ind.rsi14(), int_dv(30)) ==> bull_signals(ind).contains("RSI oversold"@),
        ema_up(ind) ==> bull_signals(ind).contains("EMA structure bullish"@),
{
    assert(crate::reading::ema_structure_bull(ind) == ema_up(ind));
    let b0: Seq<Seq<char>> = Seq::empty();
    let b1 = push_if(b0, ind.has("hammer"@), "hammer"@);
    lemma_push_if_grows(b0, ind.has("hammer"@), "hammer"@);
    let b2 = push_if(b1, ind.has("bullish_engulfing"@), "bullish engulfing"@);
    lemma_push_if_grows(b1, ind.has("bullish_engulfing"@), "bullish engulfing"@);
    let b3 = push_if(b2, ind.has("morning_star"@), "morning star"@);
    lemma_push_if_grows(b2, ind.has("morning_star"@), "morning star"@);
    let b4 = push_if(b3, ind.has("three_white_soldiers"@), "three white soldiers"@);
    lemma_push_if_grows(b3, ind.has("three_white_soldiers"@), "three white soldiers"@);
    let b5 = push_if(b4, ind.has("double_bottom"@), "double bottom"@);
    lemma_push_if_grows(b4, ind.has("double_bottom"@), "double bottom"@);
    let b6 = push_if(b5, ind.has("resistance_breakout"@), "resistance breakout"@);
    lemma_push_if_grows(b5, ind.has("resistance_breakout"@), "resistance breakout"@);
    let b7 = push_if(b6, dv_lt(ind.rsi14(), int_dv(30)), "RSI oversold"@);
    lemma_push_if_grows(b6, dv_lt(ind.rsi14(), int_dv(30)), "RSI oversold"@);
    let b8 = push_if(b7, crate::reading::ema_structure_bull(ind), "EMA structure bullish"@);
    lemma_push_if_grows(b7, crate::reading::ema_structure_bull(ind), "EMA structure bullish"@);
    assert(bull_signals(ind) == b8);
    lemma_push_if_keeps(b1, ind.has("bullish_engulfing"@), "bullish engulfing"@, "hammer"@);
    lemma_push_if_keeps(b2, ind.has("morning_star"@), "morning star"@, "hammer"@);
    lemma_push_if_keeps(b3, ind.has("three_white_soldiers"@), "three white soldiers"@, "hammer"@);
    lemma_push_if_keeps(b4, ind.has("double_bottom"@), "double bottom"@, "hammer"@);
    lemma_push_if_keeps(b5, ind.has("resistance_breakout"@), "resistance breakout"@, "hammer"@);
    lemma_push_if_keeps(b6, dv_lt(ind.rsi14(), int_dv(30)), "RSI oversold"@, "hammer"@);
    lemma_push_if_keeps(b7, crate::reading::ema_structure_bull(ind), "EMA structure bullish"@, "hammer"@);
    lemma_push_if_keeps(b2, ind.has("morning_star"@), "morning star"@, "bullish engulfing"@);
    lemma_push_if_keeps(b3, ind.has("three_white_soldiers"@), "three white soldiers"@, "bullish engulfing"@);
    lemma_push_if_keeps(b4, ind.has("double_bottom"@), "double bottom"@, "bullish engulfing"@);
    lemma_push_if_keeps(b5, ind.has("resistance_breakout"@), "resistance breakout"@, "bullish engulfing"@);
    lemma_push_if_keeps(b6, dv_lt(ind.rsi14(), int_dv(30)), "RSI oversold"@, "bullish engulfing"@);
    lemma_push_if_keeps(b7, crate::reading::ema_structure_bull(ind), "EMA structure bullish"@, "bullish engulfing"@);
    lemma_push_if_keeps(b3, ind.has("three_white_soldiers"@), "three white soldiers"@, "morning star"@);
    lemma_push_if_keeps(b4, ind.has("double_bottom"@), "double bottom"@, "morning star"@);
    lemma_push_if_keeps(b5, ind.has("resistance_breakout"@), "resistance breakout"@, "morning star"@);
    lemma_push_if_keeps(b6, dv_lt(ind.rsi14(), int_dv(30)), "RSI oversold"@, "morning star"@);
    lemma_push_if_keeps(b7, crate::reading::ema_structure_bull(ind), "EMA structure bullish"@, "morning star"@);
    lemma_push_if_keeps(b4, ind.has("double_bottom"@), "double bottom"@, "three white soldiers"@);
    lemma_push_if_keeps(b5, ind.has("resistance_breakout"@), "resistance breakout"@, "three white soldiers"@);
    lemma_push_if_keeps(b6, dv_lt(ind.rsi14(), int_dv(30)), "RSI oversold"@, "three white soldiers"@);
    lemma_push_if_keeps(b7, crate::reading::ema_structure_bull(ind), "EMA structure bullish"@, "three white soldiers"@);
    lemma_push_if_keeps(b5, ind.has("resistance_breakout"@), "resistance breakout"@, "double bottom"@);
    lemma_push_if_keeps(b6, dv_lt(ind.rsi14(), int_dv(30)), "RSI oversold"@, "double bottom"@);
    lemma_push_if_keeps(b7, crate::reading::ema_structure_bull(ind), "EMA structure bullish"@, "double bottom"@);
    lemma_push_if_keeps(b6, dv_lt(ind.rsi14(), int_dv(30)), "RSI oversold"@, "resistance breakout"@);
    lemma_push_if_keeps(b7, crate::reading::ema_structure_bull(ind), "EMA structure bullish"@, "resistance breakout"@);
    lemma_push_if_keeps(b7, crate::reading::ema_structure_bull(ind), "EMA structure bullish"@, "RSI oversold"@);
}

/// The bearish signals of the next-candle reading: each bearish pattern
/// (shooting star, bearish engulfing, evening star, three black crows,
/// double top, support breakdown), an RSI(14) above 70 and a falling EMA
/// structure counts once and is named in the list.
#[verifier::rlimit(40)]
pub proof fn law_bearish_signals(ind: Indicators)
    ensures
        bear_signals(ind).len() == count_if(ind.has("shooting_star"@)) + count_if(ind.has("bearish_engulfing"@)) + count_if(ind.has("evening_star"@)) + count_if(ind.has("three_black_crows"@)) + count_if(ind.has("double_top"@)) + count_if(ind.has("support_breakdown"@)) + count_if(dv_lt(int_dv(70), ind.rsi14())) + count_if(ema_down(ind)),
        ind.has("shooting_star"@) ==> bear_signals(ind).contains("shooting star"@),
        ind.has("bearish_engulfing"@) ==> bear_signals(ind).contains("bearish engulfing"@),
        ind.has("evening_star"@) ==> bear_signals(ind).contains("evening star"@),
        ind.has("three_black_crows"@) ==> bear_signals(ind).contains("three black crows"@),
        ind.has("double_top"@) ==> bear_signals(ind).contains("double top"@),
        ind.has("support_breakdown"@) ==> bear_signals(ind).contains("support breakdown"@),
        dv_lt(int_dv(70), ind.rsi14()) ==> bear_signals(ind).contains("RSI overbought"@),
        ema_down(ind) ==> bear_signals(ind).contains("EMA structure bearish"@),
{
    assert(pow10(0) == 1);
    crate::decimal::lemma_pow10_positive(ind.rsi14().2);
    assert(dv_num(int_dv(70)) == 70 && int_dv(70).2 == 0);
    assert(dv_num(int_dv(30)) == 30 && int_dv(30).2 == 0);
    assert(dv_lt(int_dv(70), ind.rsi14()) ==> !dv_lt(ind.rsi14(), int_dv(30))) by {
        let p = pow10(ind.rsi14().2);
        let n = dv_num(ind.rsi14());
        if dv_lt(int_dv(70), ind.rsi14()) {
            assert(70 * p < n * 1);
            assert(!(n * 1 < 30 * p)) by (nonlinear_arith)
                requires
                    70 * p < n * 1,
                    p >= 1,
            ;
        }
    }
    assert(ema_structure_bear(ind) == ema_down(ind)) by {
        match (series_get(ind.ema@, 50), series_get(ind.ema@, 200)) {
            (Some(e50), Some(e200)) => {
                if dv_lt(e50, e200) {
                    crate::decimal::lemma_compare_at(e50, e200, e50.2 + e200.2);
                    crate::decimal::lemma_compare_at(e200, e50, e50.2 + e200.2);
                }
            },
            _ => {},
        }
    }
    let e0: Seq<Seq<char>> = Seq::empty();
    let e1 = push_if(e0, ind.has("shooting_star"@), "shooting star"@);
    lemma_push_if_grows(e0, ind.has("shooting_star"@), "shooting star"@);
    let e2 = push_if(e1, ind.has("bearish_engulfing"@), "bearish engulfing"@);
    lemma_push_if_grows(e1, ind.has("bearish_engulfing"@), "bearish engulfing"@);
    let e3 = push_if(e2, ind.has("evening_star"@), "evening star"@);
    lemma_push_if_grows(e2, ind.has("evening_star"@), "evening star"@);
    let e4 = push_if(e3, ind.has("three_black_crows"@), "three black crows"@);
    lemma_push_if_grows(e3, ind.has("three_black_crows"@), "three black crows"@);
    let e5 = push_if(e4, ind.has("double_top"@), "double top"@);
    lemma_push_if_grows(e4, ind.has("double_top"@), "double top"@);
    let e6 = push_if(e5, ind.has("support_breakdown"@), "support breakdown"@);
    lemma_push_if_grows(e5, ind.has("support_breakdown"@), "support breakdown"@);
    let e7 = push_if(e6, !dv_lt(ind.rsi14(), int_dv(30)) && dv_lt(int_dv(70), ind.rsi14()), "RSI overbought"@);
    lemma_push_if_grows(e6, !dv_lt(ind.rsi14(), int_dv(30)) && dv_lt(int_dv(70), ind.rsi14()), "RSI overbought"@);
    let e8 = push_if(e7, ema_structure_bear(ind), "EMA structure bearish"@);
    lemma_push_if_grows(e7, ema_structure_bear(ind), "EMA structure bearish"@);
    assert(bear_signals(ind) == e8);
    lemma_push_if_keeps(e1, ind.has("bearish_engulfing"@), "bearish engulfing"@, "shooting star"@);
    lemma_push_if_keeps(e2, ind.has("evening_star"@), "evening star"@, "shooting star"@);
    lemma_push_if_keeps(e3, ind.has("three_black_crows"@), "three black crows"@, "shooting star"@);
    lemma_push_if_keeps(e4, ind.has("double_top"@), "double top"@, "shooting star"@);
    lemma_push_if_keeps(e5, ind.has("support_breakdown"@), "support breakdown"@, "shooting star"@);
    lemma_push_if_keeps(e6, !dv_lt(ind.rsi14(), int_dv(30)) && dv_lt(int_dv(70), ind.rsi14()), "RSI overbought"@, "shooting star"@);
    lemma_push_if_keeps(e7, ema_structure_bear(ind), "EMA structure bearish"@, "shooting star"@);
    lemma_push_if_keeps(e2, ind.has("evening_star"@), "evening star"@, "bearish engulfing"@);
    lemma_push_if_keeps(e3, ind.has("three_black_crows"@), "three black crows"@, "bearish engulfing"@);
    lemma_push_if_keeps(e4, ind.has("double_top"@), "double top"@, "bearish engulfing"@);
    lemma_push_if_keeps(e5, ind.has("support_breakdown"@), "support breakdown"@, "bearish engulfing"@);
    lemma_push_if_keeps(e6, !dv_lt(ind.rsi14(), int_dv(30)) && dv_lt(int_dv(70), ind.rsi14()), "RSI overbought"@, "bearish engulfing"@);
    lemma_push_if_keeps(e7, ema_structure_bear(ind), "EMA structure bearish"@, "bearish engulfing"@);
    lemma_push_if_keeps(e3, ind.has("three_black_crows"@), "three black crows"@, "evening star"@);
    lemma_push_if_keeps(e4, ind.has("double_top"@), "double top"@, "evening star"@);
    lemma_push_if_keeps(e5, ind.has("support_breakdown"@), "support breakdown"@, "evening star"@);
    lemma_push_if_keeps(e6, !dv_lt(ind.rsi14(), int_dv(30)) && dv_lt(int_dv(70), ind.rsi14()), "RSI overbought"@, "evening star"@);
    lemma_push_if_keeps(e7, ema_structure_bear(ind), "EMA structure bearish"@, "evening star"@);
    lemma_push_if_keeps(e4, ind.has("double_top"@), "double top"@, "three black crows"@);
    lemma_push_if_keeps(e5, ind.has("support_breakdown"@), "support breakdown"@, "three black crows"@);
    lemma_push_if_keeps(e6, !dv_lt(ind.rsi14(), int_dv(30)) && dv_lt(int_dv(70), ind.rsi14()), "RSI overbought"@, "three black crows"@);
    lemma_push_if_keeps(e7, ema_structure_bear(ind), "EMA structure bearish"@, "three black crows"@);
    lemma_push_if_keeps(e5, ind.has("support_breakdown"@), "support breakdown"@, "double top"@);
    lemma_push_if_keeps(e6, !dv_lt(ind.rsi14(), int_dv(30)) && dv_lt(int_dv(70), ind.rsi14()), "RSI overbought"@, "double top"@);
    lemma_push_if_keeps(e7, ema_structure_bear(ind), "EMA structure bearish"@, "double top"@);
    lemma_push_if_keeps(e6, !dv_lt(ind.rsi14(), int_dv(30)) && dv_lt(int_dv(70), ind.rsi14()), "RSI overbought"@, "support breakdown"@);
    lemma_push_if_keeps(e7, ema_structure_bear(ind), "EMA structure bearish"@, "support breakdown"@);
    lemma_push_if_keeps(e7, ema_structure_bear(ind), "EMA structure bearish"@, "RSI overbought"@);
}

/// The next candle is called bullish with more bullish signals, bearish
/// with more bearish ones, and neutral on a tie.
pub proof fn law_next_candle_call(ind: Indicators)
    ensures
        next_candle_spec(ind).0 == "bullish"@ <==> bull_signals(ind).len() > bear_signals(ind).len(),
        next_candle_spec(ind).0 == "bearish"@ <==> bear_signals(ind).len() > bull_signals(ind).len(),
        next_candle_spec(ind).0 == "neutral"@ <==> bull_signals(ind).len() == bear_signals(ind).len(),
{
    reveal_strlit("bullish");
    reveal_strlit("bearish");
    reveal_strlit("neutral");
    assert("bullish"@ != "bearish"@ && "bullish"@ != "neutral"@ && "bearish"@ != "neutral"@) by {
        assert("bullish"@[1] != "bearish"@[1]);
        assert("bullish"@[0] != "neutral"@[0]);
        assert("bearish"@[0] != "neutral"@[0]);
    }
}

} // verus!
