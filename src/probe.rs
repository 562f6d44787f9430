use vstd::prelude::*;

use crate::error::{contains_code, has_code, Error};
use crate::request::Request;
use crate::error::ErrorCode;
use crate::response::{rate_headers, RateLimit, RawReply, ResponseEnvelope, WebResponse};

verus! {

/// The API's code for "the user is not in this list", which the membership
/// and subscription probes read as a negative answer.
pub const NOT_IN_LIST: u32 = 109;

/// A yes/no question asked by one call: the call answers yes with a payload,
/// and no with an API error that carries `absent_code`.
#[derive(Clone, Debug, PartialEq, Eq)]
pub struct Probe<'a> {
    pub request: Request<'a>,
    pub absent_code: u32,
}

/// What a probe answers for the result of its call.
pub open spec fn probe_answer<T>(reply: Result<RawReply<T>, Error>, absent_code: u32) -> WebResponse<bool> {
    match reply {
        Err(e) => Err(e),
        Ok(raw) => match raw.body {
            Ok(_) => Ok(ResponseEnvelope { rate_limit: raw.rate_limit, body: true }),
            Err(Error::ApiError(errs)) => if has_code(errs@, absent_code) {
                Ok(ResponseEnvelope { rate_limit: raw.rate_limit, body: false })
            } else {
                Err(Error::ApiError(errs))
            },
            Err(e) => Err(e),
        },
    }
}

/// A reply whose body is an API error list that holds the absent code is a
/// negative answer, with the accounting of that same reply; one whose list
/// lacks it is that error, unchanged, and no answer.
pub proof fn lemma_absent_code_salvage<T>(rate_limit: RateLimit, errors: Vec<ErrorCode>, absent_code: u32)
    ensures
        has_code(errors@, absent_code) ==> probe_answer(
            Ok::<RawReply<T>, Error>(
                (RawReply { rate_limit, body: Err::<T, Error>(Error::ApiError(errors)) }),
            ),
            absent_code,
        ) == Ok::<ResponseEnvelope<bool>, Error>((ResponseEnvelope { rate_limit, body: false })),
        !has_code(errors@, absent_code) ==> probe_answer(
            Ok::<RawReply<T>, Error>(
                (RawReply { rate_limit, body: Err::<T, Error>(Error::ApiError(errors)) }),
            ),
            absent_code,
        ) == Err::<ResponseEnvelope<bool>, Error>(Error::ApiError(errors)),
{
}

impl<'a> Probe<'a> {
    /// Reads the answer from the result of the probe's call. A decoded
    /// payload means yes; an API error list that holds the absent code means
    /// no, with the accounting of that same failed response; any other error
    /// comes back unchanged.
    pub fn resolve<T>(&self, reply: Result<RawReply<T>, Error>) -> (r: WebResponse<bool>)
        ensures
            r == probe_answer(reply, self.absent_code),
    {
        match reply {
            Err(e) => Err(e),
            Ok(raw) => {
                let absent = match &raw.body {
                    Err(Error::ApiError(errs)) => contains_code(errs, self.absent_code),
                    _ => false,
                };
                if absent {
                    // the answer is no; the accounting still comes from this reply
                    Ok(rate_headers(&raw).map(|_u: ()| -> (yes: bool) ensures !yes { false }))
                } else {
                    let rate_limit = raw.rate_limit;
                    match raw.body {
                        Ok(payload) => {
                            let found = ResponseEnvelope { rate_limit, body: payload };
                            Ok(found.map(|_p: T| -> (yes: bool) ensures yes { true }))
                        },
                        Err(e) => Err(e),
                    }
                }
            },
        }
    }
}

} // verus!
