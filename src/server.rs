//! One connection's work: decode a command, apply it to the session, and
//! encode the reply.
use vstd::prelude::*;
use crate::clock::session_deadline;
use crate::protocol::{Action, decode_action, encode_reply, parse_action, reply_bytes};
use crate::session::{
    Deadline,
    Effect,
    SessionState,
    SESSION_SECONDS,
    accepts,
    next_effect,
    next_state,
    reply_text,
};

verus! {

/// Why a request was not served.
#[derive(Clone, Copy, Debug, PartialEq, Eq, Structural)]
pub enum ServeError {
    /// The request bytes are not a command.
    Malformed,
    /// The deadline of a new session could not be computed.
    Clock,
}

/// The new state, reply bytes and effect for request bytes `request` in
/// state `s`, or `None` where the request is malformed.
pub open spec fn serve_outcome(s: SessionState, request: Seq<u8>, start: Deadline) -> Option<
    (SessionState, Seq<u8>, Effect),
> {
    match parse_action(request) {
        None => None,
        Some(a) => Some(
            (
                next_state(s, a, start),
                reply_bytes(accepts(s, a), reply_text(s, a, start)),
                next_effect(s, a, start),
            ),
        ),
    }
}

/// Whether `a` in state `s` begins a session, so that its outcome depends on
/// the deadline.
pub open spec fn starts_session(s: SessionState, a: Action) -> bool {
    s is Idle && a == Action::Work
}

/// Whether the request bytes are a command that begins a session in state `s`.
pub open spec fn request_starts_session(s: SessionState, request: Seq<u8>) -> bool {
    match parse_action(request) {
        Some(a) => starts_session(s, a),
        None => false,
    }
}

/// Applies `action` to the session and encodes the reply.
pub fn respond(state: &mut SessionState, action: Action, start: Deadline) -> (r: (Vec<u8>, Effect))
    ensures
        *final(state) == next_state(*old(state), action, start),
        r.0@ == reply_bytes(accepts(*old(state), action), reply_text(*old(state), action, start)),
        r.1 == next_effect(*old(state), action, start),
{
    let (next, reply, effect) = state.apply(action, start);
    *state = next;
    (encode_reply(&reply), effect)
}

/// Serves the request bytes of one connection at time `now`. A malformed
/// request leaves the session as it was.
pub fn serve(state: &mut SessionState, request: &[u8], now: i64) -> (r: Result<
    (Vec<u8>, Effect),
    ServeError,
>)
    ensures
        parse_action(request@) is None <==> r == Err::<(Vec<u8>, Effect), ServeError>(
            ServeError::Malformed,
        ),
        r is Err ==> *final(state) == *old(state),
        r == Err::<(Vec<u8>, Effect), ServeError>(ServeError::Clock) ==> request_starts_session(
            *old(state),
            request@,
        ),
        request_starts_session(*old(state), request@) && now + SESSION_SECONDS > i64::MAX
            ==> r is Err,
        r matches Ok((b, e)) ==> (!request_starts_session(*old(state), request@) ==> forall|
            d: Deadline,
        | #[trigger] serve_outcome(*old(state), request@, d) == Some((*final(state), b@, e))),
        r matches Ok((b, e)) ==> (request_starts_session(*old(state), request@) ==> exists|
            d: Deadline,
        |
            d.at == now + SESSION_SECONDS && d.wf() && #[trigger] serve_outcome(
                *old(state),
                request@,
                d,
            ) == Some((*final(state), b@, e))),
{
    let action = match decode_action(request) {
        Ok(a) => a,
        Err(_) => return Err(ServeError::Malformed),
    };
    let starting = match (*state, action) {
        (SessionState::Idle, Action::Work) => true,
        _ => false,
    };
    let start = if starting {
        match session_deadline(now) {
            Some(d) => d,
            None => return Err(ServeError::Clock),
        }
    } else {
        Deadline { at: now, hour: 0, minute: 0 }
    };
    let ghost s0 = *state;
    let (bytes, effect) = respond(state, action, start);
    assert(serve_outcome(s0, request@, start) == Some((*state, bytes@, effect)));
    Ok((bytes, effect))
}

/// A malformed request is refused and, as it leaves the session unchanged,
/// the next well-formed request is served exactly as if it had not come.
pub proof fn lemma_malformed_request_harmless(
    s: SessionState,
    bad: Seq<u8>,
    good: Seq<u8>,
    start: Deadline,
)
    requires
        parse_action(bad) is None,
        parse_action(good) is Some,
    ensures
        serve_outcome(s, bad, start) is None,
        serve_outcome(s, good, start) is Some,
{
}

} // verus!
