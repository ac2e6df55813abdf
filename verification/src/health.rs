//! The `check_backend_health` command.

use vstd::prelude::*;
use crate::status::{status_line, HttpStatus};
use crate::wire::{shown, shown_text, Method, Outgoing, HEALTH_URL};

verus! {

/// The text that reports a healthy backend.
pub open spec fn healthy() -> Seq<char> {
    "Backend is running"@
}

/// The error text for a backend that cannot be reached.
pub open spec fn connect_failure(detail: Seq<char>) -> Seq<char> {
    "Cannot connect to backend: "@ + detail
}

/// The error text for a backend whose status does not report success.
pub open spec fn unhealthy(code: u16) -> Seq<char> {
    "Backend returned status: "@ + status_line(code)
}

/// The command's result, given what sending the probe came to.
pub open spec fn outcome(sent: Result<HttpStatus, Seq<char>>) -> Result<Seq<char>, Seq<char>> {
    match sent {
        Err(detail) => Err(connect_failure(detail)),
        Ok(status) => if status.success() {
            Ok(healthy())
        } else {
            Err(unhealthy(status.code()))
        },
    }
}

/// Opens the command: the call that the shell makes is a GET to `HEALTH_URL`,
/// without a body.
pub fn check_backend_health() -> (call: Outgoing)
    ensures
        call.method is Get,
        call.url@ == HEALTH_URL@,
        call.body is None,
{
    Outgoing { method: Method::Get, url: HEALTH_URL, body: None }
}

/// Ends the command: any status that reports success means a healthy
/// backend, whatever the body holds. Another status fails the command and is
/// named in the error, and so is the failure to get a response at all.
pub fn after_send(sent: Result<HttpStatus, String>) -> (result: Result<String, String>)
    ensures
        shown_text(result) == outcome(shown(sent)),
{
    match sent {
        Err(detail) => {
            let text = String::from_str("Cannot connect to backend: ").concat(detail.as_str());
            Err(text)
        },
        Ok(status) => {
            if status.is_success() {
                Ok(String::from_str("Backend is running"))
            } else {
                let line = status.line();
                let text = String::from_str("Backend returned status: ").concat(line.as_str());
                Err(text)
            }
        },
    }
}

} // verus!
