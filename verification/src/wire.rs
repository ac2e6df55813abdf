//! What the shell is told to send, and what it reports back.

use vstd::prelude::*;
use crate::model::PredictionRequest;

verus! {

/// The address that prediction requests are posted to.
pub const PREDICT_URL: &'static str = "http://localhost:8000/predict";

/// The address that answers a GET with the backend's health.
pub const HEALTH_URL: &'static str = "http://localhost:8000/health";

/// The two HTTP methods in use.
#[derive(Clone, Copy, Debug)]
pub enum Method {
    Get,
    Post,
}

/// One HTTP call for the shell to make: the method, the address, and the
/// record to send as the JSON body, if the call has a body.
#[derive(Debug)]
pub struct Outgoing {
    pub method: Method,
    pub url: &'static str,
    pub body: Option<PredictionRequest>,
}

/// A result whose error is a text, as the contracts see it. What the shell
/// reports is of this shape: the status of a response or the description of
/// the failure to get one, a decoded body or the decoder's complaint.
pub open spec fn shown<T>(result: Result<T, String>) -> Result<T, Seq<char>> {
    match result {
        Ok(value) => Ok(value),
        Err(text) => Err(text@),
    }
}

/// A result that is a text either way, as the contracts see it.
pub open spec fn shown_text(result: Result<String, String>) -> Result<Seq<char>, Seq<char>> {
    match result {
        Ok(text) => Ok(text@),
        Err(text) => Err(text@),
    }
}

} // verus!
