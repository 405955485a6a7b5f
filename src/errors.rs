use vstd::prelude::*;

verus! {

/// The error body that the instance sends when it refuses an operation.
#[derive(Clone, Debug, PartialEq, Eq)]
pub struct ApiError {
    /// What went wrong, in words.
    pub error: String,
    /// A longer description, when the instance gives one.
    pub error_description: Option<String>,
    /// The body's other fields, kept for diagnostics: each name with its
    /// value written as JSON.
    pub extra: Vec<(String, String)>,
}

/// Every way in which a call can fail.
#[derive(Debug)]
pub enum MastodonError {
    /// The body is a well-formed error of the instance.
    Api(ApiError),
    /// The body matched neither the expected payload nor an error; this is
    /// the failure from decoding the expected payload.
    Serde(serde_json::Error),
    /// The instance answered with a client error status (4xx).
    Client(u16),
    /// The instance answered with a server error status (5xx).
    Server(u16),
    /// A URL could not be parsed.
    Url(url::ParseError),
    /// A field that a builder needs was not set.
    MissingField(String),
    /// Any other failure, described in words.
    Other(String),
}

/// A status in the client error range.
pub open spec fn is_client_error(status: u16) -> bool {
    400 <= status <= 499
}

/// A status in the server error range.
pub open spec fn is_server_error(status: u16) -> bool {
    500 <= status <= 599
}

/// A status after which the body is not decoded.
pub open spec fn is_error_status(status: u16) -> bool {
    is_client_error(status) || is_server_error(status)
}

/// The failure that a status stands for by itself, if any.
pub open spec fn status_failure(status: u16) -> Option<MastodonError> {
    if is_client_error(status) {
        Some(MastodonError::Client(status))
    } else if is_server_error(status) {
        Some(MastodonError::Server(status))
    } else {
        None
    }
}

/// Sorts a response status: `Client` for 4xx, `Server` for 5xx, success
/// for every other status.
pub fn check_status(status: u16) -> (r: Result<(), MastodonError>)
    ensures
        match status_failure(status) {
            Some(e) => r == Err::<(), MastodonError>(e),
            None => r is Ok,
        },
{
    if 400 <= status && status <= 499 {
        Err(MastodonError::Client(status))
    } else if 500 <= status && status <= 599 {
        Err(MastodonError::Server(status))
    } else {
        Ok(())
    }
}

} // verus!
