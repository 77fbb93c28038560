//! What the Deriv client makes of the broker's replies: candles, the latest
//! tick, a contract proposal and purchase, and the account balance.
//!
//! A reply arrives as JSON; the fields the client reads are handed in here
//! as plain values (a number the client could not read as a decimal is
//! `None`).
use crate::decimal::Dec;
use crate::deriv::{contract_terms, deriv_symbol_spec, quote_from_price, spread_quote, to_deriv_symbol, Quote};
use crate::domain::{Candle, Side};
use crate::text::{nat_text, u64_text};
use vstd::prelude::*;

verus! {

/// A failed market-data or order request.
#[derive(Clone, Debug)]
pub enum MarketError {
    /// Market data could not be had.
    Market(String),
    /// An order could not be placed.
    Execution(String),
    /// The broker refused the token.
    Unauthorized(String),
    /// The price is too large for the quote's spread to be computed.
    Overflow,
}

impl MarketError {
    /// The error's text.
    pub fn message(&self) -> (r: String)
        ensures
            r@ == match self {
                MarketError::Market(m) => m@,
                MarketError::Execution(m) => m@,
                MarketError::Unauthorized(m) => m@,
                MarketError::Overflow => "arithmetic overflow"@,
            },
    {
        match self {
            MarketError::Market(m) => m.clone(),
            MarketError::Execution(m) => m.clone(),
            MarketError::Unauthorized(m) => m.clone(),
            MarketError::Overflow => String::from_str("arithmetic overflow"),
        }
    }
}

/// The `error` object of a reply; `message` when it is a string.
#[derive(Clone, Debug)]
pub struct ReplyError {
    pub message: Option<String>,
}

/// "`context`: `message`", "unknown" standing in for a missing message.
pub open spec fn error_text(context: Seq<char>, e: ReplyError, fallback: Seq<char>) -> Seq<char> {
    context + ": "@ + match e.message {
        Some(m) => m@,
        None => fallback,
    }
}

pub(crate) fn error_message(context: &str, e: &ReplyError, fallback: &str) -> (r: String)
    ensures
        r@ == error_text(context@, *e, fallback@),
{
    let mut s = String::from_str(context);
    s.append(": ");
    match &e.message {
        Some(m) => s.append(m.as_str()),
        None => s.append(fallback),
    }
    s
}

// ---------------------------------------------------------------------------
// Timestamps.
// ---------------------------------------------------------------------------
/// Whether chrono has a `DateTime` for these UNIX seconds.
pub uninterp spec fn chrono_timestamp_ok(secs: int) -> bool;

/// `DateTime::from_timestamp(secs, 0).is_some()`; chrono's dates run from
/// year -262143 to 262142, so every instant from 1970 up to the year 10000
/// is representable.
#[verifier::external_body]
fn timestamp_in_range(secs: i64) -> (r: bool)
    ensures
        r == chrono_timestamp_ok(secs as int),
        0 <= secs < 253_402_300_800 ==> r,
{
    chrono::DateTime::from_timestamp(secs, 0).is_some()
}

/// The bar time: the epoch when chrono can represent it, else now.
pub open spec fn bar_time(epoch: int, now_ts: int) -> int {
    if chrono_timestamp_ok(epoch) {
        epoch
    } else {
        now_ts
    }
}

// ---------------------------------------------------------------------------
// Candles.
// ---------------------------------------------------------------------------
/// One entry of a `candles` reply.
#[derive(Clone, Debug)]
pub struct RawCandle {
    pub epoch: Option<i64>,
    pub open: Option<Dec>,
    pub high: Option<Dec>,
    pub low: Option<Dec>,
    pub close: Option<Dec>,
}

/// A `ticks_history` reply in candle style.
#[derive(Clone, Debug)]
pub struct CandlesReply {
    pub error: Option<ReplyError>,
    /// `candles`, when it is an array.
    pub candles: Option<Vec<RawCandle>>,
}

/// The first missing price of an entry, in the order open, high, low,
/// close.
pub open spec fn missing_field(c: RawCandle) -> Option<Seq<char>> {
    if c.open is None {
        Some("open"@)
    } else if c.high is None {
        Some("high"@)
    } else if c.low is None {
        Some("low"@)
    } else if c.close is None {
        Some("close"@)
    } else {
        None
    }
}

pub open spec fn raw_wf(c: RawCandle) -> bool {
    &&& (c.open matches Some(x) ==> x.wf())
    &&& (c.high matches Some(x) ==> x.wf())
    &&& (c.low matches Some(x) ==> x.wf())
    &&& (c.close matches Some(x) ==> x.wf())
}

/// The bar an entry gives for a symbol (no volume in Deriv's history).
pub open spec fn bar_of(symbol: Seq<char>, c: RawCandle, now_ts: int, b: Candle) -> bool {
    &&& b.symbol@ == symbol
    &&& b.ts == bar_time(
        match c.epoch {
            Some(e) => e as int,
            None => 0,
        },
        now_ts,
    )
    &&& c.open == Some(b.open)
    &&& c.high == Some(b.high)
    &&& c.low == Some(b.low)
    &&& c.close == Some(b.close)
    &&& b.volume@ == crate::decimal::int_dv(0)
    &&& b.wf()
}

/// Entry `i` is the first that lacks a price.
pub open spec fn first_missing_at(v: Seq<RawCandle>, i: int) -> bool {
    &&& 0 <= i < v.len()
    &&& missing_field(v[i]) is Some
    &&& forall|j: int| 0 <= j < i ==> (#[trigger] missing_field(v[j])) is None
}

/// Bars from a candle reply: the reply's error, a missing candle list or
/// the first entry lacking a price is an error; otherwise one bar per
/// entry, in order.
pub fn candles_from_reply(symbol: &str, reply: &CandlesReply, now_ts: i64) -> (r: Result<Vec<Candle>, MarketError>)
    requires
        reply.candles matches Some(v) ==> forall|i: int| 0 <= i < v@.len() ==> raw_wf(#[trigger] v@[i]),
    ensures
        match reply.error {
            Some(e) => r matches Err(MarketError::Market(m)) && m@ == error_text(
                "deriv candles"@,
                e,
                "unknown"@,
            ),
            None => match reply.candles {
                None => r matches Err(MarketError::Market(m)) && m@ == "deriv: no candles in response"@,
                Some(v) => {
                    &&& (exists|i: int|
                        0 <= i < v@.len() && (#[trigger] missing_field(v@[i])) is Some) <==> r is Err
                    &&& (r matches Err(e) ==> e matches MarketError::Market(_))
                    &&& (r matches Err(MarketError::Market(m)) ==> exists|i: int|
                        #[trigger] first_missing_at(v@, i) && m@ == "deriv: bad "@ + missing_field(v@[i]).unwrap())
                    &&& (r matches Ok(out) ==> out@.len() == v@.len() && forall|i: int|
                        0 <= i < v@.len() ==> bar_of(symbol@, #[trigger] v@[i], now_ts as int, out@[i]))
                },
            },
        },
{
    match &reply.error {
        Some(e) => {
            return Err(MarketError::Market(error_message("deriv candles", e, "unknown")));
        },
        None => {},
    }
    let v = match &reply.candles {
        Some(v) => v,
        None => {
            return Err(MarketError::Market(String::from_str("deriv: no candles in response")));
        },
    };
    let mut out: Vec<Candle> = Vec::new();
    let mut i: usize = 0;
    while i < v.len()
        invariant
            i <= v@.len(),
            reply.error is None,
            reply.candles == Some(*v),
            out@.len() == i,
            forall|k: int| 0 <= k < v@.len() ==> raw_wf(#[trigger] v@[k]),
            forall|k: int| 0 <= k < i ==> (#[trigger] missing_field(v@[k])) is None,
            forall|k: int| 0 <= k < i ==> bar_of(symbol@, #[trigger] v@[k], now_ts as int, out@[k]),
        decreases v.len() - i,
    {
        let c = &v[i];
        let field: Option<&str> = if c.open.is_none() {
            Some("open")
        } else if c.high.is_none() {
            Some("high")
        } else if c.low.is_none() {
            Some("low")
        } else if c.close.is_none() {
            Some("close")
        } else {
            None
        };
        proof {
            reveal_strlit("open");
            reveal_strlit("high");
            reveal_strlit("low");
            reveal_strlit("close");
        }
        match field {
            Some(f) => {
                let mut m = String::from_str("deriv: bad ");
                m.append(f);
                assert(missing_field(v@[i as int]) == Some(f@));
                assert(first_missing_at(v@, i as int));
                return Err(MarketError::Market(m));
            },
            None => {},
        }
        let epoch = match c.epoch {
            Some(e) => e,
            None => 0,
        };
        let ts = if timestamp_in_range(epoch) {
            epoch
        } else {
            now_ts
        };
        let bar = match (&c.open, &c.high, &c.low, &c.close) {
            (Some(o), Some(h), Some(l), Some(cl)) => Candle {
                symbol: String::from_str(symbol),
                ts,
                open: *o,
                high: *h,
                low: *l,
                close: *cl,
                volume: Dec::zero(),
            },
            _ => {
                return Err(MarketError::Market(String::from_str("deriv: bad open")));
            },
        };
        out.push(bar);
        i = i + 1;
    }
    Ok(out)
}

// ---------------------------------------------------------------------------
// Latest tick.
// ---------------------------------------------------------------------------
/// The `history` object of a tick reply.
#[derive(Clone, Debug)]
pub struct TickHistory {
    /// `history.prices`, when it is an array.
    pub prices: Option<Vec<Option<Dec>>>,
    /// `history.times`, when it is an array.
    pub times: Option<Vec<Option<i64>>>,
}

/// A `ticks_history` reply in tick style.
#[derive(Clone, Debug)]
pub struct TicksReply {
    pub error: Option<ReplyError>,
    /// `prices`, when it is an array.
    pub prices: Option<Vec<Option<Dec>>>,
    /// `epochs`, when it is an array.
    pub epochs: Option<Vec<Option<i64>>>,
    /// `history`, when present.
    pub history: Option<TickHistory>,
}

pub open spec fn last_of<T>(s: Seq<Option<T>>) -> Option<T> {
    if s.len() == 0 {
        None
    } else {
        s.last()
    }
}

/// The latest price: the last of `prices`, else the last of
/// `history.prices`.
pub open spec fn tick_price(r: TicksReply) -> Option<Dec> {
    match r.prices {
        Some(p) => last_of(p@),
        None => match r.history {
            Some(h) => match h.prices {
                Some(p) => last_of(p@),
                None => None,
            },
            None => None,
        },
    }
}

/// The latest tick's epoch: the last of `epochs`, else the last of
/// `history.times`.
pub open spec fn tick_epoch(r: TicksReply) -> Option<i64> {
    match r.epochs {
        Some(e) => last_of(e@),
        None => match r.history {
            Some(h) => match h.times {
                Some(t) => last_of(t@),
                None => None,
            },
            None => None,
        },
    }
}

/// The quote time: the tick's epoch when chrono can represent it, else now.
pub open spec fn tick_time(r: TicksReply, now_ts: int) -> int {
    match tick_epoch(r) {
        Some(e) => if chrono_timestamp_ok(e as int) {
            e as int
        } else {
            now_ts
        },
        None => now_ts,
    }
}

fn last_price(p: &Vec<Option<Dec>>) -> (r: Option<Dec>)
    ensures
        r == last_of(p@),
{
    if p.len() == 0 {
        None
    } else {
        p[p.len() - 1]
    }
}

fn last_epoch(p: &Vec<Option<i64>>) -> (r: Option<i64>)
    ensures
        r == last_of(p@),
{
    if p.len() == 0 {
        None
    } else {
        p[p.len() - 1]
    }
}

/// The quote for a symbol from its latest tick, with the synthetic spread
/// of `quote_from_price`.
pub fn quote_from_reply(symbol: &str, reply: &TicksReply, now_ts: i64) -> (r: Result<Quote, MarketError>)
    requires
        tick_price(*reply) matches Some(p) ==> p.wf(),
    ensures
        match reply.error {
            Some(e) => r matches Err(MarketError::Market(m)) && m@ == error_text("deriv quote"@, e, "unknown"@),
            None => match tick_price(*reply) {
                None => r matches Err(MarketError::Market(m)) && m@ == "deriv: no tick price"@,
                Some(p) => match spread_quote(p@) {
                    None => r matches Err(MarketError::Overflow),
                    Some((bid, ask)) => r matches Ok(q) && q.bid@ == bid && q.ask@ == ask && q.symbol@ == symbol@
                        && q.ts == tick_time(*reply, now_ts as int) && q.bid.wf() && q.ask.wf(),
                },
            },
        },
{
    match &reply.error {
        Some(e) => {
            return Err(MarketError::Market(error_message("deriv quote", e, "unknown")));
        },
        None => {},
    }
    let price = match &reply.prices {
        Some(p) => last_price(p),
        None => match &reply.history {
            Some(h) => match &h.prices {
                Some(p) => last_price(p),
                None => None,
            },
            None => None,
        },
    };
    let price = match price {
        Some(p) => p,
        None => {
            return Err(MarketError::Market(String::from_str("deriv: no tick price")));
        },
    };
    let epoch = match &reply.epochs {
        Some(e) => last_epoch(e),
        None => match &reply.history {
            Some(h) => match &h.times {
                Some(t) => last_epoch(t),
                None => None,
            },
            None => None,
        },
    };
    let ts = match epoch {
        Some(e) => if timestamp_in_range(e) {
            e
        } else {
            now_ts
        },
        None => now_ts,
    };
    match quote_from_price(symbol, &price, ts) {
        Some(q) => Ok(q),
        None => Err(MarketError::Overflow),
    }
}

// ---------------------------------------------------------------------------
// Orders.
// ---------------------------------------------------------------------------
/// An order to place on Deriv: a stake on a side, for a duration, with
/// optional monetary stop-loss and take-profit limits.
#[derive(Clone, Debug)]
pub struct OrderRequest {
    pub symbol: String,
    pub side: Side,
    pub stake: Dec,
    pub duration_secs: Option<u64>,
    pub stop_loss_amount: Option<Dec>,
    pub take_profit_amount: Option<Dec>,
}

/// The `proposal` request for an order; the limits go in a `limit_order`
/// object, sent only when one of them is set.
#[derive(Clone, Debug)]
pub struct ProposalRequest {
    pub amount: Dec,
    pub basis: String,
    pub contract_type: String,
    pub currency: String,
    pub duration: u64,
    pub duration_unit: String,
    pub symbol: String,
    pub stop_loss: Option<Dec>,
    pub take_profit: Option<Dec>,
}

impl ProposalRequest {
    /// Whether the request carries a `limit_order` object.
    pub open spec fn has_limit_order(&self) -> bool {
        self.stop_loss is Some || self.take_profit is Some
    }
}

/// The proposal for an order: the stake as a stake-based amount in USD, the
/// contract type and duration (in seconds) of `contract_terms`, Deriv's name
/// for the symbol, and the order's limits.
pub fn proposal_request(req: &OrderRequest) -> (r: ProposalRequest)
    ensures
        r.amount == req.stake,
        r.basis@ == "stake"@,
        r.contract_type@ == (if req.side == Side::Buy {
            "CALL"@
        } else {
            "PUT"@
        }),
        r.currency@ == "USD"@,
        r.duration == (match req.duration_secs {
            Some(d) => if d < 15 {
                15
            } else {
                d
            },
            None => 300,
        }),
        r.duration_unit@ == "s"@,
        r.symbol@ == deriv_symbol_spec(req.symbol@),
        r.stop_loss == req.stop_loss_amount,
        r.take_profit == req.take_profit_amount,
        r.has_limit_order() == (req.stop_loss_amount is Some || req.take_profit_amount is Some),
{
    let (contract_type, duration) = contract_terms(req.side, req.duration_secs);
    ProposalRequest {
        amount: req.stake,
        basis: String::from_str("stake"),
        contract_type,
        currency: String::from_str("USD"),
        duration,
        duration_unit: String::from_str("s"),
        symbol: to_deriv_symbol(req.symbol.as_str()),
        stop_loss: req.stop_loss_amount,
        take_profit: req.take_profit_amount,
    }
}

/// The `buy` request for an accepted proposal: its id and the price to pay.
pub fn buy_request(proposal_id: &String, price: &Dec) -> (r: (String, Dec))
    ensures
        r.0@ == proposal_id@,
        r.1 == *price,
{
    (proposal_id.clone(), *price)
}

/// A `proposal` reply: the proposal's id when it is a string, its ask price
/// when readable.
#[derive(Clone, Debug)]
pub struct ProposalReply {
    pub error: Option<ReplyError>,
    pub proposal_id: Option<String>,
    pub ask_price: Option<Dec>,
}

/// The proposal to buy and the price to pay: the ask price, else the stake.
pub fn proposal_outcome(reply: &ProposalReply, stake: &Dec) -> (r: Result<(String, Dec), MarketError>)
    ensures
        match reply.error {
            Some(e) => r matches Err(MarketError::Execution(m)) && m@ == error_text(
                "deriv proposal"@,
                e,
                "unknown"@,
            ),
            None => match reply.proposal_id {
                None => r matches Err(MarketError::Execution(m)) && m@ == "deriv: missing proposal id"@,
                Some(id) => r matches Ok((i, p)) && i@ == id@ && p == match reply.ask_price {
                    Some(a) => a,
                    None => *stake,
                },
            },
        },
{
    match &reply.error {
        Some(e) => {
            return Err(MarketError::Execution(error_message("deriv proposal", e, "unknown")));
        },
        None => {},
    }
    match &reply.proposal_id {
        None => Err(MarketError::Execution(String::from_str("deriv: missing proposal id"))),
        Some(id) => {
            let price = match reply.ask_price {
                Some(a) => a,
                None => *stake,
            };
            Ok((id.clone(), price))
        },
    }
}

/// The `buy` object of a purchase reply.
#[derive(Clone, Debug)]
pub struct BoughtContract {
    /// `contract_id`, when it is an unsigned integer.
    pub contract_id: Option<u64>,
    pub price: Option<Dec>,
}

/// A `buy` reply.
#[derive(Clone, Debug)]
pub struct BuyReply {
    pub error: Option<ReplyError>,
    pub buy: Option<BoughtContract>,
    /// The top-level `balance`, when readable.
    pub balance: Option<Dec>,
}

/// A placed order as the broker reports it.
#[derive(Clone, Debug)]
pub struct BrokerOrder {
    pub broker_ref: String,
    pub filled_price: Dec,
    pub balance_after: Dec,
}

/// The placed order: the contract id (else `fallback_ref`), the price paid
/// (else the ask price) and the balance after (else the stake).
pub fn order_outcome(reply: &BuyReply, ask_price: &Dec, stake: &Dec, fallback_ref: String) -> (r: Result<
    BrokerOrder,
    MarketError,
>)
    ensures
        match reply.error {
            Some(e) => r matches Err(MarketError::Execution(m)) && m@ == error_text("deriv buy"@, e, "unknown"@),
            None => match reply.buy {
                None => r matches Err(MarketError::Execution(m)) && m@ == "deriv: missing buy object"@,
                Some(b) => r matches Ok(o) && o.broker_ref@ == match b.contract_id {
                    Some(c) => nat_text(c as nat),
                    None => fallback_ref@,
                } && o.filled_price == match b.price {
                    Some(p) => p,
                    None => *ask_price,
                } && o.balance_after == match reply.balance {
                    Some(x) => x,
                    None => *stake,
                },
            },
        },
{
    match &reply.error {
        Some(e) => {
            return Err(MarketError::Execution(error_message("deriv buy", e, "unknown")));
        },
        None => {},
    }
    match &reply.buy {
        None => Err(MarketError::Execution(String::from_str("deriv: missing buy object"))),
        Some(b) => {
            let broker_ref = match b.contract_id {
                Some(c) => u64_text(c),
                None => fallback_ref,
            };
            let filled_price = match b.price {
                Some(p) => p,
                None => *ask_price,
            };
            let balance_after = match reply.balance {
                Some(x) => x,
                None => *stake,
            };
            Ok(BrokerOrder { broker_ref, filled_price, balance_after })
        },
    }
}

// ---------------------------------------------------------------------------
// Balance.
// ---------------------------------------------------------------------------
/// A `balance` reply: `balance.balance`, when readable.
#[derive(Clone, Debug)]
pub struct BalanceReply {
    pub error: Option<ReplyError>,
    pub balance: Option<Dec>,
}

/// The account balance.
pub fn balance_from_reply(reply: &BalanceReply) -> (r: Result<Dec, MarketError>)
    ensures
        match reply.error {
            Some(e) => r matches Err(MarketError::Market(m)) && m@ == error_text("deriv balance"@, e, "unknown"@),
            None => match reply.balance {
                None => r matches Err(MarketError::Market(m)) && m@ == "deriv: missing balance"@,
                Some(b) => r == Ok::<Dec, MarketError>(b),
            },
        },
{
    match &reply.error {
        Some(e) => Err(MarketError::Market(error_message("deriv balance", e, "unknown"))),
        None => match reply.balance {
            None => Err(MarketError::Market(String::from_str("deriv: missing balance"))),
            Some(b) => Ok(b),
        },
    }
}

} // verus!
