use vstd::prelude::*;

verus! {

/// `E_UNEXPECTED`, the platform status for a call made out of order.
pub const E_UNEXPECTED: i32 = -2147418113;

/// A failure reported by the platform audio or process subsystem, carrying its
/// status code.
#[derive(Clone, Copy, Debug, PartialEq, Eq, Structural)]
pub struct OsError {
    pub code: i32,
}

impl OsError {
    /// Wraps a platform status code.
    pub fn new(code: i32) -> (r: OsError)
        ensures
            r.code == code,
    {
        OsError { code }
    }

    /// The error for a reply that does not answer the pending request.
    pub fn unexpected() -> (r: OsError)
        ensures
            r.code == E_UNEXPECTED,
    {
        OsError { code: E_UNEXPECTED }
    }
}

} // verus!
