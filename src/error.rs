//! The ways a search can fail.

use vstd::prelude::*;

verus! {

#[verifier::external_type_specification]
#[verifier::external_body]
pub struct ExIoError(std::io::Error);

/// Why building a matcher or searching a stream failed.
#[derive(Debug)]
pub enum SearchError {
    /// The regular expression does not compile; holds the compiler's diagnostic.
    InvalidPattern(regex::Error),
    /// The line with this 1-based number is not valid UTF-8.
    InvalidEncoding { line_number: usize },
    /// Reading the stream failed.
    IoFailure(std::io::Error),
}

} // verus!
