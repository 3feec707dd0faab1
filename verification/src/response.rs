//! The platform's reply to one completed request: the HTTP status code and
//! the response body text, held as an immutable value.
use vstd::prelude::*;

verus! {

/// A completed reply from the platform: status code and body text.
#[derive(Debug, Clone)]
pub struct Warp10Response {
    pub status: u16,
    pub payload: String,
}

impl Warp10Response {
    /// A response value from the HTTP status code and the body text.
    pub fn new(status: u16, payload: String) -> (r: Warp10Response)
        ensures
            r == (Warp10Response { status, payload }),
    {
        Warp10Response { status, payload }
    }

    /// The HTTP status code of the reply.
    pub fn status(&self) -> (r: u16)
        ensures
            r == self.status,
    {
        self.status
    }

    /// The body text of the reply.
    pub fn payload(&self) -> (r: &str)
        ensures
            r@ == self.payload@,
    {
        self.payload.as_str()
    }
}

} // verus!
