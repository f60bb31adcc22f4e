//! The library's error taxonomy and its stable `{code, detail}` summary.
use vstd::prelude::*;

verus! {

/// What went wrong, by source.
#[derive(Debug, Clone)]
pub enum Error {
    /// A filesystem failure, with its message.
    Io(String),
    /// The storage directory could not be resolved.
    PathErr(String),
    /// A non-success status without a parseable API error body.
    HttpError(String),
    /// The request could not be sent or timed out.
    RequestError(String),
    /// A digest, signature or date check on a live response failed.
    BadResponse(String),
    /// A cached response failed re-verification or has expired.
    BadCache(String),
    /// Malformed JSON, base64, UTF-8 or ciphertext framing.
    ParseErr(String),
    /// A domain-level refusal (no license, no fingerprint, not found, ...).
    LicenseErr { code: String, detail: String },
    /// An error that the server reported in its JSON:API error body.
    ApiErr { code: String, detail: String },
}

/// The `{code, detail}` pair handed to callers for an error.
#[derive(Debug, Clone)]
pub struct ErrorSummary {
    pub code: String,
    pub detail: String,
}

/// One entry of a JSON:API error body.
#[derive(Debug, Clone, Default)]
pub struct APIError {
    pub detail: Option<String>,
    pub code: Option<String>,
}

/// A JSON:API error body.
#[derive(Debug, Clone)]
pub struct APIErrors {
    pub errors: Option<Vec<APIError>>,
}

/// The code that summarises `e`, and its detail.
pub open spec fn summary_of(e: Error) -> (Seq<char>, Seq<char>) {
    match e {
        Error::HttpError(d) => ("HTTP_ERROR"@, d@),
        Error::RequestError(_) => ("REQUEST_ERROR"@, "Failed sending request: Check your internet"@),
        Error::BadResponse(d) => ("BAD_RESPONSE"@, d@),
        Error::BadCache(d) => ("BAD_CACHE"@, d@),
        Error::LicenseErr { code, detail } => (code@, detail@),
        Error::ApiErr { code, detail } => (code@, detail@),
        Error::Io(d) => ("ERR"@, d@),
        Error::PathErr(d) => ("ERR"@, d@),
        Error::ParseErr(d) => ("ERR"@, d@),
    }
}

impl ErrorSummary {
    /// Summarises an error for the caller.
    pub fn from_error(value: Error) -> (r: ErrorSummary)
        ensures
            (r.code@, r.detail@) == summary_of(value),
    {
        match value {
            Error::HttpError(detail) => ErrorSummary { code: "HTTP_ERROR".to_owned(), detail },
            Error::RequestError(_) => ErrorSummary {
                code: "REQUEST_ERROR".to_owned(),
                detail: "Failed sending request: Check your internet".to_owned(),
            },
            Error::BadResponse(detail) => ErrorSummary { code: "BAD_RESPONSE".to_owned(), detail },
            Error::BadCache(detail) => ErrorSummary { code: "BAD_CACHE".to_owned(), detail },
            Error::LicenseErr { code, detail } => ErrorSummary { code, detail },
            Error::ApiErr { code, detail } => ErrorSummary { code, detail },
            Error::Io(detail) => ErrorSummary { code: "ERR".to_owned(), detail },
            Error::PathErr(detail) => ErrorSummary { code: "ERR".to_owned(), detail },
            Error::ParseErr(detail) => ErrorSummary { code: "ERR".to_owned(), detail },
        }
    }
}

impl From<Error> for ErrorSummary {
    fn from(value: Error) -> (r: ErrorSummary) {
        ErrorSummary::from_error(value)
    }
}

// What the summary holds is stated by `ErrorSummary::from_error`; the
// conversion makes no promise of its own.
impl vstd::std_specs::convert::FromSpecImpl<Error> for ErrorSummary {
    open spec fn obeys_from_spec() -> bool {
        false
    }

    open spec fn from_spec(v: Error) -> ErrorSummary {
        arbitrary()
    }
}

/// `e` is a `LicenseErr` with code `code`.
pub open spec fn is_license_err(e: Error, code: Seq<char>) -> bool {
    e matches Error::LicenseErr { code: c, .. } && c@ == code
}

/// Whether `status` is a 4xx client error.
pub open spec fn is_client_error(status: u16) -> bool {
    400 <= status < 500
}

/// An error as values: its variant and texts, for the variants that failed
/// responses give.
pub ghost enum ErrorShape {
    Http(Seq<char>),
    Parse(Seq<char>),
    Api(Seq<char>, Seq<char>),
    Other,
}

/// The error that a failed response stands for, given its status, its status
/// line and its body read as a JSON:API error body (`None` when it is not one).
pub open spec fn api_error_of(status: u16, status_line: Seq<char>, err: Option<APIErrors>) -> ErrorShape {
    if !is_client_error(status) {
        ErrorShape::Http(status_line)
    } else {
        match err {
            None => ErrorShape::Parse("Failed deserializing Keygen API error json"@),
            Some(e) => match e.errors {
                Some(errs) if errs@.len() > 0 => ErrorShape::Api(
                    match errs@[0].code {
                        Some(c) => c@,
                        None => Seq::empty(),
                    },
                    match errs@[0].detail {
                        Some(d) => d@,
                        None => Seq::empty(),
                    },
                ),
                _ => ErrorShape::Api("UNKNOWN"@, "Unknown Keygen API Error"@),
            },
        }
    }
}

/// The shape of an error.
pub open spec fn error_shape(e: Error) -> ErrorShape {
    match e {
        Error::HttpError(d) => ErrorShape::Http(d@),
        Error::ParseErr(d) => ErrorShape::Parse(d@),
        Error::ApiErr { code, detail } => ErrorShape::Api(code@, detail@),
        _ => ErrorShape::Other,
    }
}

fn text_or_empty(s: &Option<String>) -> (r: String)
    ensures
        r@ == match s {
            Some(t) => t@,
            None => Seq::<char>::empty(),
        },
{
    match s {
        Some(t) => t.clone(),
        None => String::new(),
    }
}

/// Turns a non-success response into an error: a 4xx with a JSON:API error
/// body gives its first error; any other status gives an `HttpError`.
pub fn parse_err_json(status_code: u16, status_line: String, err: Option<APIErrors>) -> (r: Error)
    ensures
        error_shape(r) == api_error_of(status_code, status_line@, err),
{
    if !(400 <= status_code && status_code < 500) {
        return Error::HttpError(status_line);
    }
    match err {
        None => Error::ParseErr("Failed deserializing Keygen API error json".to_owned()),
        Some(api_errs) => {
            if let Some(errs) = &api_errs.errors {
                if errs.len() > 0 {
                    let code = text_or_empty(&errs[0].code);
                    let detail = text_or_empty(&errs[0].detail);
                    return Error::ApiErr { code, detail };
                }
            }
            Error::ApiErr {
                code: "UNKNOWN".to_owned(),
                detail: "Unknown Keygen API Error".to_owned(),
            }
        },
    }
}

} // verus!
