//! Economic-calendar assessment: which currencies a symbol is exposed to,
//! and whether high- or medium-impact news for them is imminent (within 30
//! minutes) or was just released (within the last 15 minutes).
use crate::text::{join, join_spec, nat_text, starts_with, str_eq, text_upper, texts, to_upper, u64_text};
use chrono::DateTime;
use vstd::prelude::*;
use vstd::string::StringSliceAdditionalSpecFns;
use vstd::utf8::{encode_utf8, is_char_boundary};

verus! {

/// One calendar entry.
#[derive(Clone, Debug)]
pub struct NewsEvent {
    pub title: String,
    pub country: String,
    pub date: String,
    pub impact: String,
    pub forecast: String,
    pub previous: String,
}

impl NewsEvent {
    /// A field-by-field copy.
    pub fn duplicate(&self) -> (r: NewsEvent)
        ensures
            r == *self,
    {
        NewsEvent {
            title: self.title.clone(),
            country: self.country.clone(),
            date: self.date.clone(),
            impact: self.impact.clone(),
            forecast: self.forecast.clone(),
            previous: self.previous.clone(),
        }
    }
}

/// News risk for a symbol: `status` is "danger", "caution" or "clear".
#[derive(Clone, Debug)]
pub struct NewsAssessment {
    pub status: String,
    pub upcoming_high_impact: Vec<NewsEvent>,
    pub upcoming_medium_impact: Vec<NewsEvent>,
    pub recently_released: Vec<NewsEvent>,
    pub summary: String,
    pub recommendation: String,
}

// ---------------------------------------------------------------------------
// Currencies of a symbol.
// ---------------------------------------------------------------------------
/// Removes every leading "FRX".
pub open spec fn strip_frx(s: Seq<char>) -> Seq<char>
    decreases s.len(),
{
    if s.len() >= 3 && s.subrange(0, 3) == seq!['F', 'R', 'X'] {
        strip_frx(s.skip(3))
    } else {
        s
    }
}

/// The UTF-8 bytes of the pair part of an upper-cased forex symbol.
pub open spec fn pair_bytes(upper: Seq<char>) -> Seq<u8> {
    encode_utf8(strip_frx(upper))
}

pub open spec fn is_forex_pair(upper: Seq<char>) -> bool {
    "FRX"@.is_prefix_of(upper) && pair_bytes(upper).len() >= 6
}

/// Byte offsets 3 and 6 of the pair are character boundaries, so the two
/// three-byte currency codes can be cut out.
pub open spec fn currency_slicing_ok(upper: Seq<char>) -> bool {
    is_forex_pair(upper) ==> is_char_boundary(pair_bytes(upper), 6) && is_char_boundary(
        pair_bytes(upper).subrange(0, 6),
        3,
    )
}

/// The currencies are the first two three-byte codes of a forex pair
/// ("frxEURUSD" gives EUR and USD); anything else is USD-denominated.
pub open spec fn currencies_ok(upper: Seq<char>, r: Seq<String>) -> bool {
    if is_forex_pair(upper) {
        &&& r.len() == 2
        &&& encode_utf8(r[0]@) == pair_bytes(upper).subrange(0, 3)
        &&& encode_utf8(r[1]@) == pair_bytes(upper).subrange(3, 6)
    } else {
        r.len() == 1 && r[0]@ == "USD"@
    }
}

fn strip_frx_exec(s: &str) -> (r: &str)
    ensures
        r@ == strip_frx(s@),
{
    proof {
        reveal_strlit("FRX");
    }
    let mut p = s;
    while starts_with(p, "FRX")
        invariant
            strip_frx(p@) == strip_frx(s@),
            "FRX"@ == seq!['F', 'R', 'X'],
        decreases p@.len(),
    {
        assert(p@.subrange(0, 3) == seq!['F', 'R', 'X']);
        let n = p.unicode_len();
        let q = p.substring_char(3, n);
        assert(q@ =~= p@.skip(3));
        p = q;
    }
    assert(!(p@.len() >= 3 && p@.subrange(0, 3) == seq!['F', 'R', 'X']));
    p
}

/// Currency codes a symbol's price depends on (`symbol_currencies`).
pub fn symbol_currencies(symbol: &str) -> (r: Vec<String>)
    requires
        currency_slicing_ok(text_upper(symbol@)),
    ensures
        currencies_ok(text_upper(symbol@), r@),
{
    let u = to_upper(symbol);
    let us = u.as_str();
    if starts_with(us, "FRX") {
        let pair = strip_frx_exec(us);
        if pair.as_bytes().len() >= 6 {
            let (six, _rest) = pair.split_at(6);
            let (a, b) = six.split_at(3);
            let mut v: Vec<String> = Vec::new();
            v.push(String::from_str(a));
            v.push(String::from_str(b));
            assert(a.spec_bytes() =~= pair_bytes(u@).subrange(0, 3));
            assert(b.spec_bytes() =~= pair_bytes(u@).subrange(3, 6));
            return v;
        }
    }
    let mut v: Vec<String> = Vec::new();
    v.push(String::from_str("USD"));
    v
}

/// `symbol_currencies`, or `None` for a symbol whose pair cannot be cut at
/// byte offsets 3 and 6.
pub fn symbol_currencies_checked(symbol: &str) -> (r: Option<Vec<String>>)
    ensures
        r is Some <==> currency_slicing_ok(text_upper(symbol@)),
        r matches Some(v) ==> currencies_ok(text_upper(symbol@), v@),
{
    let u = to_upper(symbol);
    let us = u.as_str();
    if starts_with(us, "FRX") {
        let pair = strip_frx_exec(us);
        if pair.as_bytes().len() >= 6 {
            if !pair.is_char_boundary(6) {
                return None;
            }
            let (six, _rest) = pair.split_at(6);
            if !six.is_char_boundary(3) {
                return None;
            }
        }
    }
    Some(symbol_currencies(symbol))
}

// ---------------------------------------------------------------------------
// Assessment.
// ---------------------------------------------------------------------------
/// The time from `now` to the instant an RFC 3339 date names, as chrono
/// computes `DateTime::parse_from_rfc3339(date) - now`: its whole seconds
/// and the nanoseconds beyond them (`None` when the date does not parse or
/// `now` is out of chrono's range).
pub uninterp spec fn rfc3339_offset(date: Seq<char>, now_secs: int, now_nanos: int) -> Option<(int, int)>;

/// The same offset in nanoseconds.
pub open spec fn rfc3339_offset_nanos(date: Seq<char>, now_secs: int, now_nanos: int) -> Option<int> {
    match rfc3339_offset(date, now_secs, now_nanos) {
        Some((secs, nanos)) => Some(secs * 1_000_000_000 + nanos),
        None => None,
    }
}

/// `DateTime::parse_from_rfc3339(date)`, converted to UTC, minus the UTC
/// instant `now_secs` + `now_nanos` (`DateTime::from_timestamp`), given as
/// the `TimeDelta`'s `num_seconds()` and `subsec_nanos()`.  `None` when the
/// date does not parse or `now` is out of chrono's range.
#[verifier::external_body]
fn event_offset(date: &str, now_secs: i64, now_nanos: u32) -> (r: Option<(i64, i32)>)
    ensures
        match r {
            Some((secs, nanos)) => rfc3339_offset(date@, now_secs as int, now_nanos as int) == Some(
                (secs as int, nanos as int),
            ),
            None => rfc3339_offset(date@, now_secs as int, now_nanos as int) is None,
        },
{
    let now = DateTime::from_timestamp(now_secs, now_nanos)?;
    let t = DateTime::parse_from_rfc3339(date).ok()?.with_timezone(&chrono::Utc);
    let d = t - now;
    Some((d.num_seconds(), d.subsec_nanos()))
}

/// Nanoseconds from `now` to the event's date.
fn event_offset_nanos(date: &str, now_secs: i64, now_nanos: u32) -> (r: Option<i128>)
    ensures
        match r {
            Some(d) => rfc3339_offset_nanos(date@, now_secs as int, now_nanos as int) == Some(d as int),
            None => rfc3339_offset_nanos(date@, now_secs as int, now_nanos as int) is None,
        },
{
    match event_offset(date, now_secs, now_nanos) {
        Some((secs, nanos)) => Some(secs as i128 * 1_000_000_000 + nanos as i128),
        None => None,
    }
}

pub open spec fn thirty_minutes_ns() -> int {
    1_800_000_000_000
}

pub open spec fn fifteen_minutes_ns() -> int {
    900_000_000_000
}

/// The event concerns one of the currencies.
pub open spec fn concerns(e: NewsEvent, currencies: Seq<String>) -> bool {
    exists|i: int| 0 <= i < currencies.len() && #[trigger] currencies[i]@ == e.country@
}

pub open spec fn upcoming(e: NewsEvent, currencies: Seq<String>, now_secs: int, now_nanos: int) -> bool {
    concerns(e, currencies) && match rfc3339_offset_nanos(e.date@, now_secs, now_nanos) {
        Some(d) => 0 < d <= thirty_minutes_ns(),
        None => false,
    }
}

pub open spec fn released(e: NewsEvent, currencies: Seq<String>, now_secs: int, now_nanos: int) -> bool {
    concerns(e, currencies) && match rfc3339_offset_nanos(e.date@, now_secs, now_nanos) {
        Some(d) => -fifteen_minutes_ns() <= d < 0,
        None => false,
    }
}

/// Which list an event joins: 1 upcoming high impact, 2 upcoming medium
/// impact, 3 recently released, 0 none.
pub open spec fn news_class(e: NewsEvent, currencies: Seq<String>, now_secs: int, now_nanos: int) -> int {
    if upcoming(e, currencies, now_secs, now_nanos) {
        if e.impact@ == "High"@ {
            1
        } else if e.impact@ == "Medium"@ {
            2
        } else {
            0
        }
    } else if released(e, currencies, now_secs, now_nanos) {
        3
    } else {
        0
    }
}

/// The events of class `k`, in calendar order.
pub open spec fn news_list(
    events: Seq<NewsEvent>,
    currencies: Seq<String>,
    now_secs: int,
    now_nanos: int,
    k: int,
) -> Seq<NewsEvent>
    decreases events.len(),
{
    if events.len() == 0 {
        Seq::empty()
    } else {
        let rest = news_list(events.drop_last(), currencies, now_secs, now_nanos, k);
        if news_class(events.last(), currencies, now_secs, now_nanos) == k {
            rest.push(events.last())
        } else {
            rest
        }
    }
}

/// The events that join one of the lists, in calendar order.
pub open spec fn relevant_events(
    events: Seq<NewsEvent>,
    currencies: Seq<String>,
    now_secs: int,
    now_nanos: int,
) -> Seq<NewsEvent>
    decreases events.len(),
{
    if events.len() == 0 {
        Seq::empty()
    } else {
        let rest = relevant_events(events.drop_last(), currencies, now_secs, now_nanos);
        if news_class(events.last(), currencies, now_secs, now_nanos) != 0 {
            rest.push(events.last())
        } else {
            rest
        }
    }
}

pub open spec fn any_impact(s: Seq<NewsEvent>, impact: Seq<char>) -> bool {
    exists|i: int| 0 <= i < s.len() && #[trigger] s[i].impact@ == impact
}

pub open spec fn status_spec(high: Seq<NewsEvent>, medium: Seq<NewsEvent>, recent: Seq<NewsEvent>) -> Seq<char> {
    if high.len() > 0 || any_impact(recent, "High"@) {
        "danger"@
    } else if medium.len() > 0 || any_impact(recent, "Medium"@) {
        "caution"@
    } else {
        "clear"@
    }
}

/// "title (country)" for each event.
pub open spec fn event_labels(s: Seq<NewsEvent>) -> Seq<Seq<char>> {
    s.map_values(|e: NewsEvent| e.title@ + " ("@ + e.country@ + ")"@)
}

pub open spec fn event_list_text(s: Seq<NewsEvent>) -> Seq<char> {
    join_spec(event_labels(s), ", "@)
}

pub open spec fn summary_spec(high: Seq<NewsEvent>, medium: Seq<NewsEvent>, recent: Seq<NewsEvent>) -> Seq<char> {
    if high.len() > 0 {
        "HIGH-IMPACT NEWS IMMINENT: "@ + nat_text(high.len()) + " event(s) in the next 30 min ("@
            + event_list_text(high) + ")"@
    } else if recent.len() > 0 {
        "NEWS JUST RELEASED: "@ + nat_text(recent.len()) + " event(s) in the last 15 min ("@ + event_list_text(
            recent,
        ) + ")"@
    } else if medium.len() > 0 {
        "Medium-impact news upcoming: "@ + nat_text(medium.len()) + " event(s) ("@ + event_list_text(medium)
            + ")"@
    } else {
        "No high-impact news in the next 30 minutes. Market conditions are clear of news volatility."@
    }
}

pub open spec fn recommendation_spec(status: Seq<char>) -> Seq<char> {
    if status == "danger"@ {
        "HIGH RISK: High-impact news is imminent or just released. Expect extreme volatility, slippage, and spread widening. REDUCE position size by 50% or WAIT until 15 minutes after the news release. Do not enter new trades during the news window."@
    } else if status == "caution"@ {
        "CAUTION: Medium-impact news is upcoming. Expect increased volatility. Use smaller position sizes and wider stops."@
    } else {
        "No news risk. Normal trading conditions. Proceed with standard risk management."@
    }
}

/// The assessment is what the calendar says for these currencies at `now`.
pub open spec fn assessment_of(
    a: NewsAssessment,
    currencies: Seq<String>,
    events: Seq<NewsEvent>,
    now_secs: int,
    now_nanos: int,
) -> bool {
    let high = news_list(events, currencies, now_secs, now_nanos, 1);
    let medium = news_list(events, currencies, now_secs, now_nanos, 2);
    let recent = news_list(events, currencies, now_secs, now_nanos, 3);
    &&& a.upcoming_high_impact@ == high
    &&& a.upcoming_medium_impact@ == medium
    &&& a.recently_released@ == recent
    &&& a.status@ == status_spec(high, medium, recent)
    &&& a.summary@ == summary_spec(high, medium, recent)
    &&& a.recommendation@ == recommendation_spec(a.status@)
}

fn concerns_exec(e: &NewsEvent, currencies: &Vec<String>) -> (r: bool)
    ensures
        r == concerns(*e, currencies@),
{
    let mut i: usize = 0;
    while i < currencies.len()
        invariant
            i <= currencies.len(),
            forall|j: int| 0 <= j < i ==> #[trigger] currencies@[j]@ != e.country@,
        decreases currencies.len() - i,
    {
        if str_eq(currencies[i].as_str(), e.country.as_str()) {
            return true;
        }
        i = i + 1;
    }
    false
}

fn classify(e: &NewsEvent, currencies: &Vec<String>, now_secs: i64, now_nanos: u32) -> (r: u8)
    ensures
        r as int == news_class(*e, currencies@, now_secs as int, now_nanos as int),
{
    if !concerns_exec(e, currencies) {
        return 0;
    }
    let d = match event_offset_nanos(e.date.as_str(), now_secs, now_nanos) {
        Some(d) => d,
        None => {
            return 0;
        },
    };
    if 0 < d && d <= 1_800_000_000_000 {
        if str_eq(e.impact.as_str(), "High") {
            1
        } else if str_eq(e.impact.as_str(), "Medium") {
            2
        } else {
            0
        }
    } else if -900_000_000_000 <= d && d < 0 {
        3
    } else {
        0
    }
}

fn has_impact(s: &Vec<NewsEvent>, impact: &str) -> (r: bool)
    ensures
        r == any_impact(s@, impact@),
{
    let mut i: usize = 0;
    while i < s.len()
        invariant
            i <= s.len(),
            forall|j: int| 0 <= j < i ==> #[trigger] s@[j].impact@ != impact@,
        decreases s.len() - i,
    {
        if str_eq(s[i].impact.as_str(), impact) {
            return true;
        }
        i = i + 1;
    }
    false
}

fn list_text(s: &Vec<NewsEvent>) -> (r: String)
    ensures
        r@ == event_list_text(s@),
{
    let mut parts: Vec<String> = Vec::new();
    let mut i: usize = 0;
    while i < s.len()
        invariant
            i <= s.len(),
            parts@.len() == i,
            forall|j: int| 0 <= j < i ==> #[trigger] parts@[j]@ == event_labels(s@)[j],
        decreases s.len() - i,
    {
        let mut p = s[i].title.clone();
        p.append(" (");
        p.append(s[i].country.as_str());
        p.append(")");
        assert(p@ == event_labels(s@)[i as int]);
        parts.push(p);
        i = i + 1;
    }
    assert(texts(parts@) =~= event_labels(s@));
    join(&parts, ", ")
}

/// Sorts the calendar's events for these currencies into imminent
/// high-impact, imminent medium-impact and just-released news, and derives
/// the status, summary and recommendation.
pub fn assess_news_for(currencies: &Vec<String>, events: &Vec<NewsEvent>, now_secs: i64, now_nanos: u32) -> (r:
    NewsAssessment)
    ensures
        assessment_of(r, currencies@, events@, now_secs as int, now_nanos as int),
{
    let mut high: Vec<NewsEvent> = Vec::new();
    let mut medium: Vec<NewsEvent> = Vec::new();
    let mut recent: Vec<NewsEvent> = Vec::new();
    let ghost cur = currencies@;
    let mut i: usize = 0;
    while i < events.len()
        invariant
            i <= events.len(),
            cur == currencies@,
            high@ == news_list(events@.take(i as int), cur, now_secs as int, now_nanos as int, 1),
            medium@ == news_list(events@.take(i as int), cur, now_secs as int, now_nanos as int, 2),
            recent@ == news_list(events@.take(i as int), cur, now_secs as int, now_nanos as int, 3),
        decreases events.len() - i,
    {
        let ghost pre = events@.take(i + 1);
        assert(pre.drop_last() =~= events@.take(i as int));
        assert(pre.last() == events@[i as int]);
        let k = classify(&events[i], currencies, now_secs, now_nanos);
        if k == 1 {
            high.push(events[i].duplicate());
        } else if k == 2 {
            medium.push(events[i].duplicate());
        } else if k == 3 {
            recent.push(events[i].duplicate());
        }
        i = i + 1;
    }
    assert(events@.take(events.len() as int) =~= events@);
    proof {
        reveal_strlit("danger");
        reveal_strlit("caution");
        reveal_strlit("clear");
    }
    let status = if high.len() > 0 || has_impact(&recent, "High") {
        String::from_str("danger")
    } else if medium.len() > 0 || has_impact(&recent, "Medium") {
        String::from_str("caution")
    } else {
        String::from_str("clear")
    };
    let summary = if high.len() > 0 {
        let mut s = String::from_str("HIGH-IMPACT NEWS IMMINENT: ");
        s.append(u64_text(high.len() as u64).as_str());
        s.append(" event(s) in the next 30 min (");
        s.append(list_text(&high).as_str());
        s.append(")");
        s
    } else if recent.len() > 0 {
        let mut s = String::from_str("NEWS JUST RELEASED: ");
        s.append(u64_text(recent.len() as u64).as_str());
        s.append(" event(s) in the last 15 min (");
        s.append(list_text(&recent).as_str());
        s.append(")");
        s
    } else if medium.len() > 0 {
        let mut s = String::from_str("Medium-impact news upcoming: ");
        s.append(u64_text(medium.len() as u64).as_str());
        s.append(" event(s) (");
        s.append(list_text(&medium).as_str());
        s.append(")");
        s
    } else {
        String::from_str("No high-impact news in the next 30 minutes. Market conditions are clear of news volatility.")
    };
    let recommendation = if str_eq(status.as_str(), "danger") {
        String::from_str(
            "HIGH RISK: High-impact news is imminent or just released. Expect extreme volatility, slippage, and spread widening. REDUCE position size by 50% or WAIT until 15 minutes after the news release. Do not enter new trades during the news window.",
        )
    } else if str_eq(status.as_str(), "caution") {
        String::from_str(
            "CAUTION: Medium-impact news is upcoming. Expect increased volatility. Use smaller position sizes and wider stops.",
        )
    } else {
        String::from_str("No news risk. Normal trading conditions. Proceed with standard risk management.")
    };
    NewsAssessment {
        status,
        upcoming_high_impact: high,
        upcoming_medium_impact: medium,
        recently_released: recent,
        summary,
        recommendation,
    }
}

/// The assessment is the one for the symbol's currencies.
pub open spec fn assessment_for_symbol(
    a: NewsAssessment,
    symbol: Seq<char>,
    events: Seq<NewsEvent>,
    now_secs: int,
    now_nanos: int,
) -> bool {
    exists|cur: Seq<String>|
        currencies_ok(text_upper(symbol), cur) && #[trigger] assessment_of(a, cur, events, now_secs, now_nanos)
}

/// `assess_news` for a symbol over a fetched calendar; `None` when the
/// symbol's currency codes cannot be cut out (see `symbol_currencies`).
pub fn assess_news(symbol: &str, events: &Vec<NewsEvent>, now_secs: i64, now_nanos: u32) -> (r: Option<
    NewsAssessment,
>)
    ensures
        r is Some <==> currency_slicing_ok(text_upper(symbol@)),
        r matches Some(a) ==> assessment_for_symbol(a, symbol@, events@, now_secs as int, now_nanos as int),
{
    match symbol_currencies_checked(symbol) {
        None => None,
        Some(cur) => {
            let a = assess_news_for(&cur, events, now_secs, now_nanos);
            let ghost cv = cur@;
            assert(currencies_ok(text_upper(symbol@), cv));
            assert(assessment_of(a, cv, events@, now_secs as int, now_nanos as int));
            assert(assessment_for_symbol(a, symbol@, events@, now_secs as int, now_nanos as int));
            Some(a)
        },
    }
}

} // verus!
