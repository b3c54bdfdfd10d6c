//! Error types shared by every endpoint.

use vstd::prelude::*;

use crate::decode::{json_ok, json_str_field, text_string_field};

verus! {

/// A structured error returned by the remote API: a machine-readable code
/// and a human-readable message, decoded from the body of a failed response.
#[derive(Debug, Clone, PartialEq, Eq)]
pub struct WitError {
    /// Machine-readable error code.
    pub code: String,
    /// Human-readable error message.
    pub message: String,
}

/// A complete frame whose text failed to decode: either it does not parse as
/// JSON at all, or it lacks the discriminating shape the endpoint expects.
#[derive(Debug, Clone, PartialEq, Eq)]
pub struct DecodeError {
    /// The frame text that failed to decode.
    pub frame: String,
}

/// The unified error type for every operation of the client: an error from
/// the remote API, a URL that would not parse, or a frame that would not
/// decode. Transport failures are reported by the surrounding I/O layer.
#[derive(Debug)]
pub enum ApiError {
    /// An error returned by the remote API.
    WitError(WitError),
    /// Failed to parse a URL.
    UrlError(url::ParseError),
    /// A frame failed to decode.
    SerializationError(DecodeError),
}

/// Decodes the body of a failed response into a structured error, reading
/// its `code` and `message` fields. Returns `Some` exactly when the body is
/// a JSON document carrying both fields as strings.
pub fn parse_wit_error(body: &str) -> (r: Option<WitError>)
    ensures
        match r {
            Some(e) => {
                &&& json_ok(body@)
                &&& json_str_field(body@, "code"@) == Some(e.code@)
                &&& json_str_field(body@, "message"@) == Some(e.message@)
            },
            None => {
                ||| !json_ok(body@)
                ||| json_str_field(body@, "code"@) is None
                ||| json_str_field(body@, "message"@) is None
            },
        },
{
    let code = text_string_field(body, "code");
    let message = text_string_field(body, "message");
    match (code, message) {
        (Some(c), Some(m)) => Some(WitError { code: c, message: m }),
        _ => None,
    }
}

} // verus!
