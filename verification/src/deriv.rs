//! Deriv broker conventions: symbol names, candle request sizes, quotes with
//! a synthetic spread, and contract terms.
use crate::decimal::{decimal_checked_add, decimal_checked_mul, decimal_checked_sub, scaled_dv, Dec, DecV};
use crate::domain::Side;
use crate::text::{
    char_alphanumeric, is_alphanumeric, starts_with, trim, trim_end_spec, trim_spec, trim_start_spec, unicode_ws,
};
use vstd::prelude::*;

verus! {

/// Symbols Deriv already knows pass through unchanged.
pub open spec fn deriv_native(t: Seq<char>) -> bool {
    "frx"@.is_prefix_of(t) || "R_"@.is_prefix_of(t) || "BOOM"@.is_prefix_of(t) || "CRASH"@.is_prefix_of(t)
        || "stp"@.is_prefix_of(t) || "JD"@.is_prefix_of(t) || "OTC"@.is_prefix_of(t) || "1HZ"@.is_prefix_of(t)
        || "jump"@.is_prefix_of(t)
}

/// The alphanumeric characters of a text, in order.
pub open spec fn alnum_only(s: Seq<char>) -> Seq<char>
    decreases s.len(),
{
    if s.len() == 0 {
        Seq::empty()
    } else if char_alphanumeric(s.last()) {
        alnum_only(s.drop_last()).push(s.last())
    } else {
        alnum_only(s.drop_last())
    }
}

/// The trimmed symbol when Deriv knows it, else "frx" and its letters and
/// digits ("EUR/USD" becomes "frxEURUSD").
pub open spec fn deriv_symbol_spec(symbol: Seq<char>) -> Seq<char> {
    let t = trim_spec(symbol);
    if deriv_native(t) {
        t
    } else {
        "frx"@ + alnum_only(t)
    }
}

/// Maps a human symbol ("EUR/USD", "R_100") to Deriv's name for it.
pub fn to_deriv_symbol(symbol: &str) -> (r: String)
    ensures
        r@ == deriv_symbol_spec(symbol@),
        deriv_symbol_spec(r@) == r@,
{
    let t = trim(symbol);
    let ts = t.as_str();
    if starts_with(ts, "frx") || starts_with(ts, "R_") || starts_with(ts, "BOOM") || starts_with(ts, "CRASH")
        || starts_with(ts, "stp") || starts_with(ts, "JD") || starts_with(ts, "OTC") || starts_with(ts, "1HZ")
        || starts_with(ts, "jump") {
        proof {
            lemma_trim_idempotent(symbol@);
        }
        return t;
    }
    let n = ts.unicode_len();
    let mut alnum = String::new();
    let mut i: usize = 0;
    while i < n
        invariant
            n == ts@.len(),
            i <= n,
            alnum@ == alnum_only(ts@.take(i as int)),
            forall|j: int| 0 <= j < alnum@.len() ==> !unicode_ws(#[trigger] alnum@[j]),
        decreases n - i,
    {
        let c = ts.get_char(i);
        assert(ts@.take(i + 1).drop_last() =~= ts@.take(i as int));
        assert(ts@.take(i + 1).last() == c);
        if is_alphanumeric(c) {
            let one = ts.substring_char(i, i + 1);
            assert(one@ =~= seq![c]);
            let ghost before = alnum@;
            alnum.append(one);
            assert(alnum@ =~= before.push(c));
        }
        i = i + 1;
    }
    assert(ts@.take(n as int) =~= ts@);
    let mut out = String::from_str("frx");
    out.append(alnum.as_str());
    proof {
        reveal_strlit("frx");
        lemma_trim_keeps(out@);
        assert("frx"@.is_prefix_of(out@)) by {
            assert(out@.subrange(0, 3) =~= "frx"@);
        }
    }
    out
}

/// Trimming twice is trimming once.
pub proof fn lemma_trim_idempotent(s: Seq<char>)
    ensures
        trim_spec(trim_spec(s)) == trim_spec(s),
{
    lemma_trim_start_stable(s);
    lemma_trim_end_stable(trim_start_spec(s));
    lemma_trim_end_keeps_start(trim_start_spec(s));
    let a = trim_start_spec(s);
    let b = trim_end_spec(a);
    assert(trim_start_spec(b) == b);
    assert(trim_end_spec(b) == b);
}

proof fn lemma_trim_start_stable(s: Seq<char>)
    ensures
        trim_start_spec(s).len() == 0 || !unicode_ws(trim_start_spec(s)[0]),
    decreases s.len(),
{
    if s.len() > 0 && unicode_ws(s[0]) {
        lemma_trim_start_stable(s.drop_first());
    }
}

proof fn lemma_trim_end_stable(s: Seq<char>)
    ensures
        trim_end_spec(s).len() == 0 || !unicode_ws(trim_end_spec(s).last()),
        trim_end_spec(trim_end_spec(s)) == trim_end_spec(s),
    decreases s.len(),
{
    if s.len() > 0 && unicode_ws(s.last()) {
        lemma_trim_end_stable(s.drop_last());
    }
}

/// Trimming the end of a text that does not start with white space keeps
/// its start (or empties it).
proof fn lemma_trim_end_keeps_start(s: Seq<char>)
    requires
        s.len() == 0 || !unicode_ws(s[0]),
    ensures
        trim_start_spec(trim_end_spec(s)) == trim_end_spec(s),
    decreases s.len(),
{
    if s.len() > 0 && unicode_ws(s.last()) {
        if s.len() > 1 {
            assert(s.drop_last()[0] == s[0]);
        }
        lemma_trim_end_keeps_start(s.drop_last());
    }
}

/// A text whose first and last characters are not white space is its own
/// trim.
proof fn lemma_trim_keeps(s: Seq<char>)
    requires
        s.len() > 0,
        !unicode_ws(s[0]),
        !unicode_ws(s.last()),
    ensures
        trim_spec(s) == s,
{
}

/// How many candles to ask for: the request clamped to 1..=5000.
pub fn candle_request_count(count: usize) -> (r: u32)
    ensures
        r as int == (if count < 1 {
            1
        } else if count > 5000 {
            5000
        } else {
            count as int
        }),
{
    if count < 1 {
        1
    } else if count > 5000 {
        5000
    } else {
        count as u32
    }
}

/// A bid/ask quote built from Deriv's single price.
#[derive(Clone, Debug)]
pub struct Quote {
    pub symbol: String,
    pub bid: Dec,
    pub ask: Dec,
    pub ts: i64,
}

/// Spread of one millionth of the price on each side (`None` on overflow).
pub open spec fn spread_quote(price: DecV) -> Option<(DecV, DecV)> {
    match decimal_checked_mul(price, scaled_dv(1, 6)) {
        None => None,
        Some(sp) => match (decimal_checked_sub(price, sp), decimal_checked_add(price, sp)) {
            (Some(b), Some(a)) => Some((b, a)),
            _ => None,
        },
    }
}

/// A quote around a price, with a synthetic spread for fill realism.
pub fn quote_from_price(symbol: &str, price: &Dec, ts: i64) -> (r: Option<Quote>)
    requires
        price.wf(),
    ensures
        match r {
            Some(q) => {
                &&& spread_quote(price@) == Some((q.bid@, q.ask@))
                &&& q.symbol@ == symbol@
                &&& q.ts == ts
                &&& q.bid.wf() && q.ask.wf()
            },
            None => spread_quote(price@) is None,
        },
{
    let sp = price.mul(&Dec::new(1, 6))?;
    let bid = price.sub(&sp);
    let ask = price.add(&sp);
    match (bid, ask) {
        (Some(b), Some(a)) => Some(Quote { symbol: String::from_str(symbol), bid: b, ask: a, ts }),
        _ => None,
    }
}

/// Contract type and duration in seconds of an order: CALL for a buy, PUT
/// for a sell; 300 seconds unless given, at least 15.
pub fn contract_terms(side: Side, duration_secs: Option<u64>) -> (r: (String, u64))
    ensures
        r.0@ == (if side == Side::Buy {
            "CALL"@
        } else {
            "PUT"@
        }),
        r.1 == (match duration_secs {
            Some(d) => if d < 15 {
                15
            } else {
                d
            },
            None => 300,
        }),
{
    let ct = match side {
        Side::Buy => String::from_str("CALL"),
        Side::Sell => String::from_str("PUT"),
    };
    let d = match duration_secs {
        Some(d) => d,
        None => 300,
    };
    let d = if d < 15 {
        15
    } else {
        d
    };
    (ct, d)
}

/// The Deriv WebSocket URL for an application id (1089 when none is set).
pub fn ws_url(app_id: &str) -> (r: String)
    ensures
        r@ == "wss://ws.derivws.com/websockets/v3?app_id="@ + (if app_id@.len() == 0 {
            "1089"@
        } else {
            app_id@
        }),
{
    let mut s = String::from_str("wss://ws.derivws.com/websockets/v3?app_id=");
    if app_id.unicode_len() == 0 {
        s.append("1089");
    } else {
        s.append(app_id);
    }
    s
}

} // verus!
