use vstd::prelude::*;

verus! {

/// The body of an error response of the control plane.
#[derive(Clone, Debug, PartialEq)]
pub struct ListIndexes401Response {
    /// The HTTP status code.
    pub status: i32,
    /// The error.
    pub error: Box<ListIndexes401ResponseError>,
}

impl ListIndexes401Response {
    /// The error response with the given status and error.
    pub fn new(status: i32, error: ListIndexes401ResponseError) -> (r: ListIndexes401Response)
        ensures
            r.status == status,
            *r.error == error,
    {
        ListIndexes401Response { status, error: Box::new(error) }
    }
}

/// The error of an error response.
#[derive(Clone, Debug, PartialEq)]
pub struct ListIndexes401ResponseError {
    /// The error code.
    pub code: String,
    /// The error message.
    pub message: String,
}

} // verus!
