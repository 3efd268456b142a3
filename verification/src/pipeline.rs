use vstd::prelude::*;
use crate::auth::{PublicKey, ed25519_verifies, verify};
use crate::encode::{spec_encode, pong_bytes, encode_response};
use crate::interaction::{Interaction, InteractionShape, spec_decode, decode_interaction};
use crate::jsonval::json_of;
use crate::router::{InteractionResponse, spec_handler, handler};
use crate::validate::{Header, HeaderShape, Validation, ValidationShape, headers_shape,
    spec_validate, validate_request};

verus! {

/// What the endpoint sends back: an HTTP status and the response body.
pub struct HttpResponse {
    pub status: u16,
    pub body: Vec<u8>,
}

/// The shape of a response: its status and its body bytes.
pub open spec fn response_shape(r: HttpResponse) -> (u16, Seq<u8>) {
    (r.status, r.body@)
}

/// The answer to a request that passed validation: forbidden, with an
/// empty body, unless the signature covers the timestamp followed by the
/// body; then by the decoded interaction: the fixed Pong for a ping, the
/// routed handler's encoded reply for a command, and a client error for
/// an undecodable or unhandled body. A handler failure would be a server
/// error, though the handlers of this core never fail.
pub open spec fn spec_handle_validated(
    key: Seq<u8>,
    timestamp: Seq<u8>,
    body: Seq<u8>,
    signature: Seq<u8>,
) -> (u16, Seq<u8>) {
    if !ed25519_verifies(key, timestamp + body, signature) {
        (403, Seq::empty())
    } else {
        match spec_decode(json_of(body)) {
            Result::Err(_) => (400, Seq::empty()),
            Result::Ok(i) => match i {
                InteractionShape::Ping => (200, pong_bytes()),
                InteractionShape::ApplicationCommand { name } => match spec_handler(i) {
                    Result::Ok(resp) => (200, spec_encode(resp)),
                    Result::Err(_) => (500, Seq::empty()),
                },
                InteractionShape::Other => (400, Seq::empty()),
            },
        }
    }
}

/// The answer to any request: the validator's status where it rejects,
/// otherwise the authenticated pipeline's answer. A rejected request is
/// answered from method, path and headers alone.
pub open spec fn spec_handle_request(
    key: Seq<u8>,
    method: Seq<u8>,
    path: Seq<u8>,
    headers: Seq<HeaderShape>,
    body: Seq<u8>,
) -> (u16, Seq<u8>) {
    match spec_validate(method, path, headers) {
        ValidationShape::Reject { status } => (status, Seq::empty()),
        ValidationShape::Proceed { timestamp, signature } => spec_handle_validated(
            key,
            timestamp,
            body,
            signature,
        ),
    }
}

/// Runs a request that already passed validation: signature verification,
/// decoding, routing and encoding, in that order. The body is parsed only
/// after its signature verified.
pub fn handle_validated(key: &PublicKey, timestamp: &[u8], body: &[u8], signature: &[u8]) -> (r:
    HttpResponse)
    requires
        key.wf(),
        signature@.len() == 64,
    ensures
        response_shape(r) == spec_handle_validated(key@, timestamp@, body@, signature@),
{
    if !verify(key, timestamp, body, signature) {
        return HttpResponse { status: 403, body: Vec::new() };
    }
    let interaction = match decode_interaction(body) {
        Ok(i) => i,
        Err(_) => return HttpResponse { status: 400, body: Vec::new() },
    };
    match interaction {
        Interaction::Ping => {
            let out: Vec<u8> = vec![123u8, 34, 116, 121, 112, 101, 34, 58, 49, 125];
            proof {
                assert(out@ == pong_bytes());
            }
            HttpResponse { status: 200, body: out }
        },
        Interaction::ApplicationCommand { .. } => match handler(&interaction) {
            Ok(resp) => HttpResponse { status: 200, body: encode_response(&resp) },
            Err(_) => HttpResponse { status: 500, body: Vec::new() },
        },
        Interaction::Other => HttpResponse { status: 400, body: Vec::new() },
    }
}

/// The whole verify-then-dispatch pipeline for one inbound request. The
/// response is a pure function of the key and the request; requests share
/// nothing else, so any number may run side by side and a replay of the
/// same request draws the same answer.
pub fn handle_request(
    key: &PublicKey,
    method: &[u8],
    path: &[u8],
    headers: &Vec<Header>,
    body: &[u8],
) -> (r: HttpResponse)
    requires
        key.wf(),
    ensures
        response_shape(r) == spec_handle_request(
            key@,
            method@,
            path@,
            headers_shape(headers@),
            body@,
        ),
{
    match validate_request(method, path, headers) {
        Validation::Reject { status } => HttpResponse { status, body: Vec::new() },
        Validation::Proceed { timestamp, signature } => handle_validated(
            key,
            timestamp.as_slice(),
            body,
            signature.as_slice(),
        ),
    }
}

/// A request the Request Validator rejects is answered from its method,
/// path and headers alone: neither the key, the body, nor the Signature
/// Verifier's outcome has any part in the response, so the verifier is
/// never consulted for such a request.
pub proof fn lemma_reject_reads_no_body(
    key1: Seq<u8>,
    key2: Seq<u8>,
    method: Seq<u8>,
    path: Seq<u8>,
    headers: Seq<HeaderShape>,
    body1: Seq<u8>,
    body2: Seq<u8>,
)
    requires
        spec_validate(method, path, headers) is Reject,
    ensures
        spec_handle_request(key1, method, path, headers, body1) == spec_handle_request(
            key2,
            method,
            path,
            headers,
            body2,
        ),
{
}

/// A request whose signature does not verify is answered with the
/// forbidden status and an empty body: no reply value is ever produced
/// for it, and nothing of the body leaks into the response.
pub proof fn lemma_forbidden_is_silent(
    key: Seq<u8>,
    timestamp: Seq<u8>,
    body: Seq<u8>,
    signature: Seq<u8>,
)
    requires
        !ed25519_verifies(key, timestamp + body, signature),
    ensures
        spec_handle_validated(key, timestamp, body, signature) == (403u16, Seq::<u8>::empty()),
{
}

/// Replaying a request is idempotent: two responses that each answer the
/// same request under the same key are identical, since the pipeline
/// keeps no state between requests.
pub proof fn lemma_replay(
    key: Seq<u8>,
    method: Seq<u8>,
    path: Seq<u8>,
    headers: Seq<HeaderShape>,
    body: Seq<u8>,
    r1: (u16, Seq<u8>),
    r2: (u16, Seq<u8>),
)
    requires
        r1 == spec_handle_request(key, method, path, headers, body),
        r2 == spec_handle_request(key, method, path, headers, body),
    ensures
        r1 == r2,
{
}

} // verus!
