//! The `get_weather_prediction` command, decision by decision.
//!
//! The shell posts the request that `get_weather_prediction` hands out and
//! reports what came of it to `after_send`. Only where that function asks for
//! it does the shell decode the response body: it then holds a `Reading`,
//! whose `after_decode` turns the outcome of decoding into the command's
//! result.

use vstd::prelude::*;
use crate::model::{ApiResponse, PredictionRequest};
use crate::number::Float64;
use crate::status::{status_line, HttpStatus};
use crate::wire::{shown, Method, Outgoing, PREDICT_URL};

verus! {

/// A prediction call that has been answered with a status that reports
/// success, and whose body is yet to be decoded.
///
/// Only `after_send` makes one, so a body is never taken for the command's
/// result unless the response that carried it was a success.
#[derive(Debug)]
pub struct Reading {
    status: HttpStatus,
}

/// What the shell does once the request has been sent.
#[derive(Debug)]
pub enum AfterSend {
    /// Decode the response body as an `ApiResponse` and report to the
    /// `Reading`.
    DecodeBody(Reading),
    /// Give up: the command ends with this error text.
    Fail(String),
}

impl View for AfterSend {
    type V = Option<Seq<char>>;

    /// The error text to end with, or `None` where the body is to be decoded.
    open spec fn view(&self) -> Option<Seq<char>> {
        match self {
            AfterSend::DecodeBody(_) => None,
            AfterSend::Fail(text) => Some(text@),
        }
    }
}

/// The error text for a request that got no response.
pub open spec fn send_failure(detail: Seq<char>) -> Seq<char> {
    "Failed to send request: "@ + detail
}

/// The error text for a response whose status does not report success.
pub open spec fn status_failure(code: u16) -> Seq<char> {
    "API request failed with status: "@ + status_line(code)
}

/// The error text for a body that is no `ApiResponse`.
pub open spec fn decode_failure(detail: Seq<char>) -> Seq<char> {
    "Failed to parse response: "@ + detail
}

/// The error that ends the command before any body is read, if there is one.
pub open spec fn refusal(sent: Result<HttpStatus, Seq<char>>) -> Option<Seq<char>> {
    match sent {
        Err(detail) => Some(send_failure(detail)),
        Ok(status) => if status.success() {
            None
        } else {
            Some(status_failure(status.code()))
        },
    }
}

/// The command's result once the body has been looked at.
pub open spec fn body_outcome(decoded: Result<ApiResponse, Seq<char>>) -> Result<
    ApiResponse,
    Seq<char>,
> {
    match decoded {
        Ok(response) => Ok(response),
        Err(detail) => Err(decode_failure(detail)),
    }
}

/// The command's result, given what sending came to and what decoding the
/// body comes to. The body counts only where sending met with success.
pub open spec fn outcome(
    sent: Result<HttpStatus, Seq<char>>,
    decoded: Result<ApiResponse, Seq<char>>,
) -> Result<ApiResponse, Seq<char>> {
    match refusal(sent) {
        Some(text) => Err(text),
        None => body_outcome(decoded),
    }
}

/// Opens the command: the call that the shell makes is a POST to
/// `PREDICT_URL` whose body holds the five arguments as they were given.
pub fn get_weather_prediction(
    temperature: Float64,
    humidity: Float64,
    wind_speed: Float64,
    pressure: Float64,
    activity: String,
) -> (call: Outgoing)
    ensures
        call.method is Post,
        call.url@ == PREDICT_URL@,
        call.body == Some(
            (PredictionRequest { temperature, humidity, wind_speed, pressure, activity }),
        ),
{
    let body = PredictionRequest { temperature, humidity, wind_speed, pressure, activity };
    Outgoing { method: Method::Post, url: PREDICT_URL, body: Some(body) }
}

/// Decides what follows the attempt to send: the body is decoded exactly
/// where a response came and its status reports success. Otherwise the
/// command fails, with the description of the transport failure or with the
/// status that the backend answered.
pub fn after_send(sent: Result<HttpStatus, String>) -> (next: AfterSend)
    ensures
        next@ == refusal(shown(sent)),
        next matches AfterSend::DecodeBody(reading) ==> sent == Ok::<HttpStatus, String>(
            reading.status(),
        ),
{
    match sent {
        Err(detail) => {
            let text = String::from_str("Failed to send request: ").concat(detail.as_str());
            AfterSend::Fail(text)
        },
        Ok(status) => {
            if status.is_success() {
                AfterSend::DecodeBody(Reading { status })
            } else {
                let line = status.line();
                let text = String::from_str("API request failed with status: ").concat(
                    line.as_str(),
                );
                AfterSend::Fail(text)
            }
        },
    }
}

impl Reading {
    #[verifier::type_invariant]
    spec fn answered_with_success(self) -> bool {
        self.status.valid() && self.status.success()
    }

    /// The status that the backend answered with.
    pub closed spec fn status(self) -> HttpStatus {
        self.status
    }

    /// Ends the command: a decoded response is returned as it is, and a body
    /// that could not be decoded fails the command with the decoder's
    /// complaint.
    pub fn after_decode(self, decoded: Result<ApiResponse, String>) -> (result: Result<
        ApiResponse,
        String,
    >)
        ensures
            self.status().success(),
            shown(result) == outcome(Ok(self.status()), shown(decoded)),
            decoded is Ok ==> result == decoded,
    {
        proof {
            use_type_invariant(&self);
        }
        match decoded {
            Ok(response) => Ok(response),
            Err(detail) => {
                let text = String::from_str("Failed to parse response: ").concat(detail.as_str());
                Err(text)
            },
        }
    }
}

} // verus!
