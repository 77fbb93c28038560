//! The Deriv socket's connection decisions: when to reconnect, when to
//! authorize, what an authorization reply means, and which pending request
//! a reply answers.  The client performs the socket work each step asks for.
use crate::deriv_replies::{error_message, error_text, MarketError, ReplyError};
use crate::text::str_eq;
use vstd::prelude::*;

verus! {

/// What the client knows of its socket.
#[derive(Clone, Debug)]
pub struct Session {
    /// A socket is open.
    pub connected: bool,
    /// The socket is ready for requests (authorized, or anonymous).
    pub authorized: bool,
    /// The token the socket was opened with.
    pub token: String,
}

/// The next thing to do before a request can be sent.
#[derive(Clone, Copy, Debug, PartialEq, Eq, Structural)]
pub enum Step {
    /// The socket is ready.
    Ready,
    /// Open a new socket.
    Connect,
    /// Send the token for authorization.
    Authorize,
}

/// The socket was dropped: nothing open, nothing authorized.
pub open spec fn dropped(s: Session, token: Seq<char>) -> bool {
    !s.connected && !s.authorized && s.token@ == token
}

/// Before a request, with the token now configured: a changed token drops
/// the socket (closing it if one is open); a socket that is open and
/// authorized is used as it is; otherwise a new one is opened.
pub fn before_request(s: &Session, token: &str) -> (r: (Session, bool, Step))
    ensures
        ({
            let (next, close, step) = r;
            let changed = s.token@ != token@;
            &&& close == (changed && s.connected)
            &&& changed ==> step == Step::Connect
            &&& changed ==> dropped(next, s.token@)
            &&& !changed ==> next.connected == s.connected && next.authorized == s.authorized && next.token@
                == s.token@
            &&& step == if next.connected && next.authorized {
                Step::Ready
            } else {
                Step::Connect
            }
        }),
{
    let changed = !str_eq(s.token.as_str(), token);
    let next = if changed {
        Session { connected: false, authorized: false, token: s.token.clone() }
    } else {
        Session { connected: s.connected, authorized: s.authorized, token: s.token.clone() }
    };
    let close = changed && s.connected;
    let step = if next.connected && next.authorized {
        Step::Ready
    } else {
        Step::Connect
    };
    (next, close, step)
}

/// After a socket opened with `token`: authorize when there is a token,
/// otherwise the socket is ready for market data at once.
pub fn after_connect(token: &str) -> (r: (Session, Step))
    ensures
        r.0.connected,
        r.0.token@ == token@,
        r.0.authorized == (token@.len() == 0),
        r.1 == if token@.len() == 0 {
            Step::Ready
        } else {
            Step::Authorize
        },
{
    let anonymous = token.unicode_len() == 0;
    let s = Session { connected: true, authorized: anonymous, token: String::from_str(token) };
    if anonymous {
        (s, Step::Ready)
    } else {
        (s, Step::Authorize)
    }
}

/// A failed attempt to open the socket.
pub fn connect_failed(reason: &str) -> (r: MarketError)
    ensures
        r matches MarketError::Market(m) && m@ == "deriv ws connect: "@ + reason@,
{
    let mut m = String::from_str("deriv ws connect: ");
    m.append(reason);
    MarketError::Market(m)
}

/// After the authorization reply: an error drops (and closes) the socket
/// and is reported as unauthorized; otherwise the socket is ready.
pub fn after_authorize(s: &Session, error: &Option<ReplyError>) -> (r: (Session, bool, Result<(), MarketError>))
    ensures
        match error {
            Some(e) => {
                &&& dropped(r.0, s.token@)
                &&& r.1
                &&& r.2 matches Err(MarketError::Unauthorized(m)) && m@ == error_text(
                    "deriv authorize"@,
                    *e,
                    "authorize failed"@,
                )
            },
            None => {
                &&& r.0.connected == s.connected
                &&& r.0.authorized
                &&& r.0.token@ == s.token@
                &&& !r.1
                &&& r.2 is Ok
            },
        },
{
    match error {
        Some(e) => {
            let m = error_message("deriv authorize", e, "authorize failed");
            (
                Session { connected: false, authorized: false, token: s.token.clone() },
                true,
                Err(MarketError::Unauthorized(m)),
            )
        },
        None => (Session { connected: s.connected, authorized: true, token: s.token.clone() }, false, Ok(())),
    }
}

/// The socket closed or failed while reading: nothing is open any more, so
/// the next request reconnects.
pub fn after_socket_closed(s: &Session) -> (r: Session)
    ensures
        dropped(r, s.token@),
{
    Session { connected: false, authorized: false, token: s.token.clone() }
}

/// The pending request a reply answers: its `req_id`, unless absent or zero
/// (an unsolicited stream update).
pub fn reply_target(req_id: Option<u64>) -> (r: Option<u64>)
    ensures
        r == match req_id {
            Some(i) => if i == 0 {
                None
            } else {
                Some(i)
            },
            None => None::<u64>,
        },
{
    match req_id {
        Some(i) => if i == 0 {
            None
        } else {
            Some(i)
        },
        None => None,
    }
}

} // verus!
