//! Error types.
use vstd::prelude::*;

verus! {

/// Error for a UUID that is not as the RFC specifies.
#[derive(Debug, Clone, Copy, PartialEq, Eq, Structural)]
pub enum NuuidError {
    /// The UUID was not of the RFC variant.
    NotRfc,
}

/// Error for text that is none of the accepted UUID forms. Which rule the
/// text broke is not kept.
#[derive(Debug, Clone, Copy, PartialEq, Eq, Structural)]
pub struct ParseUuidError;

impl ParseUuidError {
    /// The parse error.
    pub fn new() -> (r: ParseUuidError)
        ensures
            r == ParseUuidError,
    {
        ParseUuidError
    }
}

} // verus!
