//! What the argument parser hands over when it fails.

use vstd::prelude::*;

verus! {

/// A failure of the argument parser. The parser words its own failures; this
/// holds the text it gave, which is shown as it stands.
#[derive(Debug, PartialEq, Eq)]
pub struct OofError {
    /// The parser's own wording of the failure.
    pub message: String,
}

impl View for OofError {
    type V = Seq<char>;

    /// The parser's wording.
    open spec fn view(&self) -> Seq<char> {
        self.message@
    }
}

impl OofError {
    /// Wraps the parser's wording of a failure.
    pub fn new(message: String) -> (err: OofError)
        ensures
            err@ == message@,
    {
        OofError { message }
    }
}

} // verus!
