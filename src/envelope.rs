use vstd::prelude::*;

use crate::errors::{check_status, is_error_status, status_failure, ApiError, MastodonError};

verus! {

/// Whether a byte string is one well-formed JSON document.
pub uninterp spec fn is_json(body: Seq<u8>) -> bool;

/// Relies on `serde_json::from_slice` into `serde_json::Value`: it succeeds
/// exactly on the bytes of one JSON document.
#[verifier::external_body]
fn parse_any_json(body: &[u8]) -> (r: Result<(), serde_json::Error>)
    ensures
        r is Ok <==> is_json(body@),
{
    match serde_json::from_slice::<serde_json::Value>(body) {
        Ok(_) => Ok(()),
        Err(e) => Err(e),
    }
}

/// The payload of a response whose body carries nothing of use.
#[derive(Clone, Copy, Debug, PartialEq, Eq, Structural)]
pub struct Empty {}

impl Empty {
    /// Decodes the body of an acknowledgement: any JSON document will do.
    pub fn decode(body: &[u8]) -> (r: Result<Empty, serde_json::Error>)
        ensures
            r is Ok <==> is_json(body@),
    {
        match parse_any_json(body) {
            Ok(()) => Ok(Empty {}),
            Err(e) => Err(e),
        }
    }
}

/// What a body decodes to: the payload when it parsed as one; else the
/// instance's error when the body parsed as that; else the failure of the
/// first parse. The second parse is made only when the first failed.
pub fn deserialise<T, F>(parsed: Result<T, serde_json::Error>, parse_api_error: F) -> (r: Result<T, MastodonError>) where
    F: FnOnce() -> Option<ApiError>,

    requires
        parsed is Err ==> parse_api_error.requires(()),
    ensures
        match parsed {
            Ok(t) => r == Ok::<T, MastodonError>(t),
            Err(e) => {
                ||| (r == Err::<T, MastodonError>(MastodonError::Serde(e)) && parse_api_error.ensures((), None))
                ||| exists|a: ApiError|
                    r == Err::<T, MastodonError>(MastodonError::Api(a)) && parse_api_error.ensures((), Some(a))
            },
        },
{
    match parsed {
        Ok(t) => Ok(t),
        Err(e) => match parse_api_error() {
            Some(a) => Err(MastodonError::Api(a)),
            None => Err(MastodonError::Serde(e)),
        },
    }
}

/// The result of a call from its response: the status's failure for a 4xx
/// or 5xx status, whose body is then left undecoded; else what `decode`
/// makes of the body.
pub fn settle<T, D>(status: u16, decode: D) -> (r: Result<T, MastodonError>) where
    D: FnOnce() -> Result<T, MastodonError>,

    requires
        !is_error_status(status) ==> decode.requires(()),
    ensures
        match status_failure(status) {
            Some(e) => r == Err::<T, MastodonError>(e),
            None => decode.ensures((), r),
        },
{
    match check_status(status) {
        Err(e) => Err(e),
        Ok(()) => decode(),
    }
}

} // verus!
