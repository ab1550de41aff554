use vstd::prelude::*;
use crate::decimal::{decimal, decimal_string};
use crate::text::join_text;

verus! {

/// `http://127.0.0.1:<port>/api/report/run`, where the report request is posted.
pub open spec fn report_url_of(port: nat) -> Seq<char> {
    "http://127.0.0.1:"@ + decimal(port) + "/api/report/run"@
}

/// The JSON body of the report request.
pub const REPORT_BODY: &'static str = "{}";

/// Its content type.
pub const REPORT_CONTENT_TYPE: &'static str = "application/json";

/// Title of the notifications the shell shows.
pub const NOTIFICATION_TITLE: &'static str = "VWork";

pub fn report_url(port: u16) -> (r: String)
    ensures
        r@ == report_url_of(port as nat),
{
    proof {
        reveal_strlit("http://127.0.0.1:");
        reveal_strlit("/api/report/run");
    }
    let mut s = String::from_str("http://127.0.0.1:");
    s.append(decimal_string(port as u64).as_str());
    s.append("/api/report/run");
    s
}

/// An HTTP status counts as success when it lies in 200..=299.
pub open spec fn is_success_status(code: u16) -> bool {
    200 <= code <= 299
}

/// The message of a failed report request.
pub open spec fn report_error_of(sent: Result<(u16, Seq<char>), Seq<char>>) -> Option<Seq<char>> {
    match sent {
        Ok((code, shown)) => if is_success_status(code) {
            None
        } else {
            Some("Server returned "@ + shown)
        },
        Err(e) => Some("Request failed: "@ + e),
    }
}

/// Judges the answer to the report request: `sent` is the response's status
/// code with its displayed form, or the transport error's text.
pub fn report_outcome(sent: Result<(u16, String), String>) -> (r: Result<(), String>)
    ensures
        match report_error_of(
            match sent {
                Ok((code, shown)) => Ok((code, shown@)),
                Err(e) => Err(e@),
            },
        ) {
            None => r is Ok,
            Some(msg) => r matches Err(m) && m@ == msg,
        },
{
    proof {
        reveal_strlit("Server returned ");
        reveal_strlit("Request failed: ");
    }
    match sent {
        Ok((code, shown)) => if 200 <= code && code <= 299 {
            Ok(())
        } else {
            Err(join_text("Server returned ", shown.as_str()))
        },
        Err(e) => Err(join_text("Request failed: ", e.as_str())),
    }
}

/// The notification text for the outcome of the report request.
pub fn report_notice(outcome: &Result<(), String>) -> (r: String)
    ensures
        match outcome {
            Ok(()) => r@ == "Report generation started"@,
            Err(e) => r@ == "Failed to generate report: "@ + e@,
        },
{
    proof {
        reveal_strlit("Report generation started");
        reveal_strlit("Failed to generate report: ");
    }
    match outcome {
        Ok(()) => String::from_str("Report generation started"),
        Err(e) => join_text("Failed to generate report: ", e.as_str()),
    }
}

} // verus!
