//! Inbound routing decisions and response texts: which handler a
//! method/path pair selects, and the status code and body owed to the
//! caller for each outcome.

use vstd::prelude::*;

use crate::errors::CouncilError;
use crate::text::{contains_seq, dec_digits, is_match_at, match_at, str_contains, usize_to_decimal};

verus! {

/// The handler selected for an inbound request.
#[derive(Debug, Clone, Copy, PartialEq, Eq, Structural)]
pub enum Route {
    ChatCompletions,
    Health,
    IsAlive,
    NotFound,
}

/// String equality by content.
pub fn str_equal(a: &str, b: &str) -> (r: bool)
    ensures
        r == (a@ == b@),
{
    let la = a.unicode_len();
    let lb = b.unicode_len();
    if la != lb {
        return false;
    }
    let eq = match_at(a, b, 0);
    proof {
        if eq {
            assert(a@.subrange(0, a@.len() as int) =~= a@);
        } else {
            assert(a@.subrange(0, b@.len() as int) =~= a@);
        }
    }
    eq
}

/// The routing table: a POST whose path mentions the chat-completions
/// path triggers a pipeline run; a GET whose path mentions the health or
/// liveness paths selects those probes; every other method/path pair is
/// unrecognized and owed a 404.
pub open spec fn spec_route(method: Seq<char>, path: Seq<char>) -> Route {
    if method == "POST"@ {
        if contains_seq(path, "/v1/chat/completions"@) {
            Route::ChatCompletions
        } else {
            Route::NotFound
        }
    } else if method == "GET"@ {
        if contains_seq(path, "/v1/health"@) {
            Route::Health
        } else if contains_seq(path, "/v1/is-alive"@) {
            Route::IsAlive
        } else {
            Route::NotFound
        }
    } else {
        Route::NotFound
    }
}

/// Selects the handler for a method and path.
pub fn route_request(method: &str, path: &str) -> (r: Route)
    ensures
        r == spec_route(method@, path@),
{
    if str_equal(method, "POST") {
        if str_contains(path, "/v1/chat/completions") {
            Route::ChatCompletions
        } else {
            Route::NotFound
        }
    } else if str_equal(method, "GET") {
        if str_contains(path, "/v1/health") {
            Route::Health
        } else if str_contains(path, "/v1/is-alive") {
            Route::IsAlive
        } else {
            Route::NotFound
        }
    } else {
        Route::NotFound
    }
}

/// The message text of each error kind.
pub open spec fn spec_error_message(e: CouncilError) -> Seq<char> {
    match e {
        CouncilError::GateBusy => "still processing"@,
        CouncilError::RemoteCallFailure { member, status, detail } => "remote call failure "@
            + member@ + " status "@ + dec_digits(status as nat) + ": "@ + detail@,
        CouncilError::PersistenceFailure { detail } => "persistence failure: "@ + detail@,
        CouncilError::ConfigurationMissing { parameter } => "missing configuration parameter "@
            + parameter@,
    }
}

/// Renders the message text of an error.
pub fn error_message(e: &CouncilError) -> (r: String)
    ensures
        r@ == spec_error_message(*e),
{
    match e {
        CouncilError::GateBusy => String::from_str("still processing"),
        CouncilError::RemoteCallFailure { member, status, detail } => {
            let mut s = String::from_str("remote call failure ");
            s.append(member.as_str());
            s.append(" status ");
            s.append(usize_to_decimal(*status as usize).as_str());
            s.append(": ");
            s.append(detail.as_str());
            s
        },
        CouncilError::PersistenceFailure { detail } => {
            let mut s = String::from_str("persistence failure: ");
            s.append(detail.as_str());
            s
        },
        CouncilError::ConfigurationMissing { parameter } => {
            let mut s = String::from_str("missing configuration parameter ");
            s.append(parameter.as_str());
            s
        },
    }
}

/// The response owed for a finished pipeline run: 200 on success, 503
/// with the busy text when the run was rejected as busy, 500 with the
/// error's message on any other failure.
pub fn completion_response(outcome: Result<(), CouncilError>) -> (r: (u16, String))
    ensures
        outcome is Ok ==> r.0 == 200 && r.1@ == "[endpoints] flow_control completed\n"@,
        outcome matches Err(e) ==> (if e is GateBusy {
            r.0 == 503 && r.1@ == "[endpoints] still processing - try again later\n"@
        } else {
            r.0 == 500 && r.1@ == "[endpoints] error : "@ + spec_error_message(e) + "\n"@
        }),
{
    match outcome {
        Ok(_) => (200, String::from_str("[endpoints] flow_control completed\n")),
        Err(e) => {
            if e.is_gate_busy() {
                (503, String::from_str("[endpoints] still processing - try again later\n"))
            } else {
                let mut body = String::from_str("[endpoints] error : ");
                body.append(error_message(&e).as_str());
                body.append("\n");
                (500, body)
            }
        },
    }
}

/// The response owed for a health probe: the combined report under its
/// banner, or 500 with the error's message.
pub fn health_response(outcome: Result<String, CouncilError>) -> (r: (u16, String))
    ensures
        outcome matches Ok(report) ==> r.0 == 200 && r.1@ == "[endpoints] all_health\n"@
            + report@,
        outcome matches Err(e) ==> r.0 == 500 && r.1@ == "error : "@ + spec_error_message(e)
            + "\n"@,
{
    match outcome {
        Ok(report) => {
            let mut body = String::from_str("[endpoints] all_health\n");
            body.append(report.as_str());
            (200, body)
        },
        Err(e) => {
            let mut body = String::from_str("error : ");
            body.append(error_message(&e).as_str());
            body.append("\n");
            (500, body)
        },
    }
}

/// The static liveness body for the given application name and version.
pub fn is_alive_body(name: &str, version: &str) -> (r: String)
    ensures
        r@ == "{ \"status\":\"ok\", \"application\": \""@ + name@ + "\", \"version\": \""@
            + version@ + "\" }"@,
{
    let mut s = String::from_str("{ \"status\":\"ok\", \"application\": \"");
    s.append(name);
    s.append("\", \"version\": \"");
    s.append(version);
    s.append("\" }");
    s
}

/// The response for an unrecognized method or path.
pub fn not_found_response() -> (r: (u16, String))
    ensures
        r.0 == 404,
        r.1@ == "[endpoints] method/endpoint not implmented\n"@,
{
    (404, String::from_str("[endpoints] method/endpoint not implmented\n"))
}

} // verus!
