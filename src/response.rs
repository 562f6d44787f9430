use vstd::prelude::*;

use crate::error::Error;

verus! {

/// Rate-limit accounting read from the headers of one HTTP response.
#[derive(Clone, Copy, Debug, PartialEq, Eq, Structural)]
pub struct RateLimit {
    /// Requests allowed in the current window.
    pub limit: u32,
    /// Requests left in the current window.
    pub remaining: u32,
    /// When the window resets, in seconds since the Unix epoch.
    pub reset_at: i64,
}

/// A decoded payload together with the rate-limit accounting of the
/// response that carried it.
#[derive(Clone, Debug, PartialEq, Eq)]
pub struct ResponseEnvelope<T> {
    pub rate_limit: RateLimit,
    pub body: T,
}

/// The outcome of a call that yields a payload with its accounting.
pub type WebResponse<T> = Result<ResponseEnvelope<T>, Error>;

/// What one HTTP exchange hands back once the transport has done its part:
/// the rate-limit headers, always present, and the body decoded as the
/// expected payload or the error that decoding met (a parse failure or the
/// API's own error list).
#[derive(Debug, PartialEq, Eq)]
pub struct RawReply<T> {
    pub rate_limit: RateLimit,
    pub body: Result<T, Error>,
}

impl<T> ResponseEnvelope<T> {
    /// Transforms the body, keeping the rate-limit accounting unchanged.
    pub fn map<U, F: FnOnce(T) -> U>(self, f: F) -> (r: ResponseEnvelope<U>)
        requires
            f.requires((self.body,)),
        ensures
            r.rate_limit == self.rate_limit,
            f.ensures((self.body,), r.body),
    {
        let ResponseEnvelope { rate_limit, body } = self;
        ResponseEnvelope { rate_limit, body: f(body) }
    }
}

/// The rate-limit accounting of a reply, kept whatever its body holds.
pub fn rate_headers<T>(reply: &RawReply<T>) -> (r: ResponseEnvelope<()>)
    ensures
        r.rate_limit == reply.rate_limit,
{
    ResponseEnvelope { rate_limit: reply.rate_limit, body: () }
}

/// Turns the result of an exchange into the payload with its accounting:
/// the payload when it decoded, else the error unchanged.
pub fn parse_response<T>(reply: Result<RawReply<T>, Error>) -> (r: WebResponse<T>)
    ensures
        match reply {
            Err(e) => r == Err::<ResponseEnvelope<T>, Error>(e),
            Ok(raw) => match raw.body {
                Ok(b) => r == Ok::<ResponseEnvelope<T>, Error>(
                    (ResponseEnvelope { rate_limit: raw.rate_limit, body: b }),
                ),
                Err(e) => r == Err::<ResponseEnvelope<T>, Error>(e),
            },
        },
{
    match reply {
        Err(e) => Err(e),
        Ok(raw) => {
            let RawReply { rate_limit, body } = raw;
            match body {
                Ok(b) => Ok(ResponseEnvelope { rate_limit, body: b }),
                Err(e) => Err(e),
            }
        },
    }
}

} // verus!
