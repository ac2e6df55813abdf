//! What holds of the two commands whatever the backend does.

use vstd::prelude::*;
use crate::health;
use crate::health::{connect_failure, healthy, unhealthy};
use crate::model::ApiResponse;
use crate::prediction;
use crate::prediction::{decode_failure, send_failure, status_failure};
use crate::status::{reason_phrase, HttpStatus};
use crate::text::{decimal, digit, lemma_decimal_three_digits, lemma_middle_occurs, occurs_in};

verus! {

/// Where the backend answers with a status that reports success and a body
/// that decodes, the prediction command returns the decoded response itself:
/// every field is the one that the decoder produced.
pub proof fn lemma_decoded_response_is_returned(status: HttpStatus, response: ApiResponse)
    requires
        status.success(),
    ensures
        prediction::outcome(Ok(status), Ok(response)) == Ok::<ApiResponse, Seq<char>>(response),
{
}

/// The prediction command succeeds only where a response came, its status
/// reports success and its body decodes.
pub proof fn lemma_prediction_success(
    sent: Result<HttpStatus, Seq<char>>,
    decoded: Result<ApiResponse, Seq<char>>,
)
    ensures
        prediction::outcome(sent, decoded) is Ok <==> (sent matches Ok(status) && status.success()
            && decoded is Ok),
{
}

/// Where the backend cannot be reached, both commands fail, each with its own
/// account of the transport failure. What a body might have held plays no
/// part.
pub proof fn lemma_unreachable_backend_fails(
    detail: Seq<char>,
    decoded: Result<ApiResponse, Seq<char>>,
)
    ensures
        prediction::outcome(Err(detail), decoded) == Err::<ApiResponse, Seq<char>>(
            send_failure(detail),
        ),
        health::outcome(Err(detail)) == Err::<Seq<char>, Seq<char>>(connect_failure(detail)),
{
}

/// Where the backend answers with a status that does not report success, both
/// commands fail, and the three digits of the status code stand in each error
/// text. The body is never consulted.
pub proof fn lemma_refused_status_is_named(
    status: HttpStatus,
    decoded: Result<ApiResponse, Seq<char>>,
)
    requires
        status.valid(),
        !status.success(),
    ensures
        prediction::outcome(Ok(status), decoded) == Err::<ApiResponse, Seq<char>>(
            status_failure(status.code()),
        ),
        health::outcome(Ok(status)) == Err::<Seq<char>, Seq<char>>(unhealthy(status.code())),
        decimal(status.code() as nat) == seq![
            digit(status.code() as nat / 100),
            digit((status.code() as nat / 10) % 10),
            digit(status.code() as nat % 10),
        ],
        occurs_in(decimal(status.code() as nat), status_failure(status.code())),
        occurs_in(decimal(status.code() as nat), unhealthy(status.code())),
{
    let code = status.code();
    let digits = decimal(code as nat);
    let tail = seq![' '] + reason_phrase(code);
    lemma_decimal_three_digits(code as nat);
    lemma_middle_occurs("API request failed with status: "@, digits, tail);
    assert(status_failure(code) =~= "API request failed with status: "@ + digits + tail);
    lemma_middle_occurs("Backend returned status: "@, digits, tail);
    assert(unhealthy(code) =~= "Backend returned status: "@ + digits + tail);
}

/// Where the status reports success and the body does not decode, the
/// prediction command fails with the decoder's complaint: no response is made
/// up from the parts that could be read.
pub proof fn lemma_malformed_body_fails(status: HttpStatus, detail: Seq<char>)
    requires
        status.success(),
    ensures
        prediction::outcome(Ok(status), Err(detail)) == Err::<ApiResponse, Seq<char>>(
            decode_failure(detail),
        ),
{
}

/// The health command succeeds exactly where a response came and its status
/// reports success, and then with the one fixed text.
pub proof fn lemma_health_success(sent: Result<HttpStatus, Seq<char>>)
    ensures
        health::outcome(sent) is Ok <==> (sent matches Ok(status) && status.success()),
        health::outcome(sent) is Ok ==> health::outcome(sent) == Ok::<Seq<char>, Seq<char>>(
            healthy(),
        ),
{
}

} // verus!
