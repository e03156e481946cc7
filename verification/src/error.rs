//! The one failure type of the decoder.

use vstd::prelude::*;
use vstd::string::StringExecFns;

verus! {

/// Why a document could not be decoded: a description, and nothing else.
#[derive(Debug, PartialEq, Eq)]
pub struct DeserializationError {
    description: String,
}

impl View for DeserializationError {
    type V = Seq<char>;

    /// The description.
    closed spec fn view(&self) -> Seq<char> {
        self.description@
    }
}

/// What a decoding step came to, as values: the view of what it made, or
/// the description of its failure.
pub open spec fn outcome<T: View>(r: Result<T, DeserializationError>) -> Result<T::V, Seq<char>> {
    match r {
        Ok(value) => Ok(value@),
        Err(error) => Err(error@),
    }
}

impl DeserializationError {
    /// An error that carries `description`.
    pub fn new(description: &str) -> (r: DeserializationError)
        ensures
            r@ == description@,
    {
        DeserializationError { description: String::from_str(description) }
    }

    /// The description this error carries.
    pub fn description(&self) -> (r: &str)
        ensures
            r@ == self@,
    {
        self.description.as_str()
    }
}

} // verus!
