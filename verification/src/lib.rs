//! The decisions of a desktop shell that relays weather-prediction requests to
//! a local HTTP backend and reports on that backend's health.
//!
//! The shell itself performs the HTTP calls and decodes JSON. Everything it
//! has to decide in between is here, as functions from plain values to plain
//! values: which request to send and where, whether a response is worth
//! decoding, and which value or error text goes back to the front end.
//!
//! A command runs in steps. The function that bears the command's name opens
//! it and hands out the call to make ([`wire::Outgoing`]). The shell makes the
//! call and reports the status of the response, or why there was none, to the
//! command's `after_send`. For the health check that ends the command. For a
//! prediction it ends the command or asks for the body, and then
//! [`prediction::Reading::after_decode`] ends it.
//!
//! Nothing here is shared between two commands, or between two runs of one:
//! each result is fixed by the values that the run was given.

pub mod health;
pub mod laws;
pub mod model;
pub mod number;
pub mod prediction;
pub mod status;
pub mod text;
pub mod wire;
