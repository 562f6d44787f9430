use vstd::prelude::*;

verus! {

/// One structured error reported by the API in an error response.
#[derive(Clone, Debug, PartialEq, Eq)]
pub struct ErrorCode {
    /// The API-defined numeric code.
    pub code: u32,
    /// The human-readable message that came with it.
    pub message: String,
}

/// Why a request did not produce the expected payload.
#[derive(Clone, Debug, PartialEq, Eq)]
pub enum Error {
    /// The request did not complete at the network or connection level.
    TransportError(String),
    /// The response body did not have the expected shape.
    ParseError(String),
    /// The API answered with a list of structured errors.
    ApiError(Vec<ErrorCode>),
}

/// Whether some error of `errors` carries `code`.
pub open spec fn has_code(errors: Seq<ErrorCode>, code: u32) -> bool {
    exists|i: int| 0 <= i < errors.len() && #[trigger] errors[i].code == code
}

/// Tells whether some error of `errors` carries `code`.
pub fn contains_code(errors: &Vec<ErrorCode>, code: u32) -> (r: bool)
    ensures
        r == has_code(errors@, code),
{
    let mut i: usize = 0;
    while i < errors.len()
        invariant
            0 <= i <= errors@.len(),
            forall|j: int| 0 <= j < i ==> #[trigger] errors@[j].code != code,
        decreases errors@.len() - i,
    {
        if errors[i].code == code {
            return true;
        }
        i = i + 1;
    }
    false
}

} // verus!
