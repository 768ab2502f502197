//! The resilient relay: one reconnect, one resend, never more.
//!
//! `execute` never fails to its caller: every outcome becomes text.  A
//! non-fatal command failure is rendered at once.  A fatal failure on the
//! first attempt triggers exactly one reconnect; if the reconnect succeeds
//! the command is resent exactly once and that second outcome is final,
//! fatal or not; if the reconnect fails, its error is the final text.
//!
//! The driver that owns the socket performs each step and feeds the outcome
//! back; the functions here decide what happens next, and the spec model
//! `relay_result` / `relay_reconnects` / `relay_sends` pins down the whole
//! exchange.

use vstd::prelude::*;

verus! {

use crate::errors::{PavlovError, error_text};

/// The rendered text of a relay-level error.
pub open spec fn spec_render(e: PavlovError) -> Seq<char> {
    error_text(e.kind, e.input@)
}

/// The text `execute` returns, as a function of the three step outcomes the
/// driver can observe: the first send, the reconnect, the second send.
pub open spec fn relay_result(
    first: Result<String, PavlovError>,
    reconnect: Result<(), PavlovError>,
    second: Result<String, PavlovError>,
) -> Seq<char> {
    match first {
        Ok(s) => s@,
        Err(e) => {
            if !e.kind.spec_is_fatal() {
                spec_render(e)
            } else {
                match reconnect {
                    Err(re) => spec_render(re),
                    Ok(u) => match second {
                        Ok(s) => s@,
                        Err(e2) => spec_render(e2),
                    },
                }
            }
        },
    }
}

/// How many reconnect attempts the exchange makes.
pub open spec fn relay_reconnects(first: Result<String, PavlovError>) -> nat {
    match first {
        Ok(s) => 0,
        Err(e) => if e.kind.spec_is_fatal() {
            1
        } else {
            0
        },
    }
}

/// How many times the command is sent.
pub open spec fn relay_sends(
    first: Result<String, PavlovError>,
    reconnect: Result<(), PavlovError>,
) -> nat {
    match first {
        Ok(s) => 1,
        Err(e) => if e.kind.spec_is_fatal() && reconnect is Ok {
            2
        } else {
            1
        },
    }
}

/// A fatal failure on the first attempt causes exactly one reconnect attempt
/// and at most one resend; any other first outcome causes neither.  Two
/// consecutive fatal failures surface the second failure's text without a
/// further retry, and a failed reconnect surfaces the reconnect error.
pub proof fn lemma_relay_bounded_retry(
    first: Result<String, PavlovError>,
    reconnect: Result<(), PavlovError>,
    second: Result<String, PavlovError>,
)
    ensures
        relay_reconnects(first) <= 1,
        relay_sends(first, reconnect) <= 2,
        first matches Err(e) && e.kind.spec_is_fatal() ==> relay_reconnects(first) == 1,
        first matches Err(e) && e.kind.spec_is_fatal() && reconnect is Ok ==> relay_sends(
            first,
            reconnect,
        ) == 2,
        first matches Err(e) ==> (e.kind.spec_is_fatal() && reconnect is Ok ==> (second matches Err(
            e2,
        ) ==> relay_result(first, reconnect, second) == spec_render(e2))),
        first matches Err(e) ==> (e.kind.spec_is_fatal() ==> (reconnect matches Err(re)
            ==> relay_result(first, reconnect, second) == spec_render(re) && relay_sends(
            first,
            reconnect,
        ) == 1)),
        !(first matches Err(e) && e.kind.spec_is_fatal()) ==> relay_reconnects(first) == 0
            && relay_sends(first, reconnect) == 1,
{
}

/// What to do after the first attempt.
pub enum FirstAction {
    /// The exchange is over: return this text.
    Done(String),
    /// The failure was fatal: discard the session and reconnect once,
    /// carrying the fatal error for logging.
    Reconnect(PavlovError),
}

/// Decides the step after the first send: success returns the response,
/// a non-fatal error returns its rendering, a fatal error asks for the one
/// reconnect.
pub fn first_attempt_action(result: Result<String, PavlovError>) -> (a: FirstAction)
    ensures
        a matches FirstAction::Done(t) ==> !(result matches Err(e) && e.kind.spec_is_fatal())
            && t@ == (match result {
            Ok(s) => s@,
            Err(e) => spec_render(e),
        }),
        a matches FirstAction::Reconnect(e) ==> result matches Err(e0) && e0.kind.spec_is_fatal()
            && e.kind == e0.kind && e.input@ == e0.input@,
{
    match result {
        Ok(s) => FirstAction::Done(s),
        Err(e) => {
            if e.kind.is_fatal() {
                FirstAction::Reconnect(e)
            } else {
                let msg = e.to_message();
                FirstAction::Done(msg)
            }
        },
    }
}

/// What to do after the reconnect attempt.
pub enum ReconnectAction {
    /// The exchange is over: return this text.
    Done(String),
    /// The reconnect succeeded: resend the command exactly once.
    Retry,
}

/// Decides the step after the reconnect: success asks for the single resend,
/// failure returns the reconnect error's rendering.
pub fn reconnect_action(result: Result<(), PavlovError>) -> (a: ReconnectAction)
    ensures
        a is Retry <==> result is Ok,
        a matches ReconnectAction::Done(t) ==> result matches Err(re) && t@ == spec_render(re),
{
    match result {
        Ok(u) => ReconnectAction::Retry,
        Err(re) => {
            let msg = re.to_message();
            ReconnectAction::Done(msg)
        },
    }
}

/// The outcome of the single resend is final, whatever it is: a response is
/// returned as is, any error is rendered, and nothing retries again.
pub fn second_attempt_result(result: Result<String, PavlovError>) -> (t: String)
    ensures
        result matches Ok(s) ==> t@ == s@,
        result matches Err(e) ==> t@ == spec_render(e),
{
    match result {
        Ok(s) => s,
        Err(e) => e.to_message(),
    }
}

} // verus!
