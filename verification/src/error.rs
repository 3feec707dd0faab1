//! The error taxonomy of the library: one flat sum type, with the underlying
//! cause carried by the variants that originate in a collaborator.
use vstd::prelude::*;

use crate::response::Warp10Response;

verus! {

#[verifier::external_type_specification]
#[verifier::external_body]
pub struct ExInvalidUri(http::uri::InvalidUri);

#[verifier::external_type_specification]
#[verifier::external_body]
pub struct ExUrlParseError(url::ParseError);

/// What went wrong with one operation.
#[derive(Debug)]
pub enum Error {
    /// The platform accepted the connection but rejected the request: the
    /// full response, and the decoded platform error header if one was
    /// present.
    ApiError(Warp10Response, Option<String>),
    /// The request could not be assembled; the text renders the underlying
    /// error.
    HttpError(String),
    /// The base address or a derived endpoint is not a valid URI.
    HttpUriError(http::uri::InvalidUri),
    /// The transport failed to complete the exchange; the text renders the
    /// underlying transport error.
    HttpBodyError(String),
    /// A local I/O failure while reading the reply; the text renders the
    /// underlying error.
    IoError(String),
    /// A URL failed to parse.
    UrlError(url::ParseError),
}

/// The description that an `ApiError` renders to: the status, the body
/// text, and the diagnostic text when one was attached.
pub open spec fn spec_api_error_message(resp: Warp10Response, err: Option<String>) -> Seq<char> {
    let base = "Warp10 API error: status "@ + crate::data::spec_udec(resp.status as nat) + ", "@
        + resp.payload@;
    match err {
        Some(e) => base + ", "@ + e@,
        None => base,
    }
}

impl Error {
    /// An `ApiError` from the rejected response and the optional decoded
    /// platform error header.
    pub fn api_error(response: Warp10Response, err: Option<String>) -> (r: Error)
        ensures
            r == Error::ApiError(response, err),
    {
        Error::ApiError(response, err)
    }

    /// A human-readable description of the error, naming its kind and its
    /// underlying cause.
    pub fn message(&self) -> (r: String)
        ensures
            self matches Error::ApiError(resp, err) ==> r@ == spec_api_error_message(*resp, *err),
            self matches Error::HttpError(m) ==> r@ == "Warp10 HTTP error: "@ + m@,
            self matches Error::HttpBodyError(m) ==> r@ == "Warp10 HTTP body error: "@ + m@,
            self matches Error::IoError(m) ==> r@ == "Warp10 IO error: "@ + m@,
            self is HttpUriError ==> "Warp10 HTTP URI error: "@.is_prefix_of(r@),
            self is UrlError ==> "Warp10 URL error: "@.is_prefix_of(r@),
    {
        match self {
            Error::ApiError(resp, err) => {
                let mut s = String::from_str("Warp10 API error: status ");
                let st = crate::data::u64_to_dec_string(resp.status as u64);
                s.append(st.as_str());
                s.append(", ");
                s.append(resp.payload.as_str());
                if let Some(e) = err {
                    s.append(", ");
                    s.append(e.as_str());
                }
                proof {
                    assert(s@ =~= spec_api_error_message(*resp, *err));
                }
                s
            },
            Error::HttpError(msg) => {
                let mut s = String::from_str("Warp10 HTTP error: ");
                s.append(msg.as_str());
                s
            },
            Error::HttpUriError(e) => {
                let mut s = String::from_str("Warp10 HTTP URI error: ");
                let t = e.to_string();
                s.append(t.as_str());
                proof {
                    assert(s@.subrange(0, "Warp10 HTTP URI error: "@.len() as int)
                        =~= "Warp10 HTTP URI error: "@);
                }
                s
            },
            Error::HttpBodyError(msg) => {
                let mut s = String::from_str("Warp10 HTTP body error: ");
                s.append(msg.as_str());
                s
            },
            Error::IoError(msg) => {
                let mut s = String::from_str("Warp10 IO error: ");
                s.append(msg.as_str());
                s
            },
            Error::UrlError(e) => {
                let mut s = String::from_str("Warp10 URL error: ");
                let t = e.to_string();
                s.append(t.as_str());
                proof {
                    assert(s@.subrange(0, "Warp10 URL error: "@.len() as int)
                        =~= "Warp10 URL error: "@);
                }
                s
            },
        }
    }
}

impl From<http::uri::InvalidUri> for Error {
    fn from(err: http::uri::InvalidUri) -> (r: Error) {
        Error::HttpUriError(err)
    }
}

impl vstd::std_specs::convert::FromSpecImpl<http::uri::InvalidUri> for Error {
    open spec fn obeys_from_spec() -> bool {
        true
    }

    open spec fn from_spec(err: http::uri::InvalidUri) -> Error {
        Error::HttpUriError(err)
    }
}

impl From<url::ParseError> for Error {
    fn from(err: url::ParseError) -> (r: Error) {
        Error::UrlError(err)
    }
}

impl vstd::std_specs::convert::FromSpecImpl<url::ParseError> for Error {
    open spec fn obeys_from_spec() -> bool {
        true
    }

    open spec fn from_spec(err: url::ParseError) -> Error {
        Error::UrlError(err)
    }
}

} // verus!
