//! The error type of documentation-provider operations.

use vstd::prelude::*;

verus! {

#[verifier::external_type_specification]
#[verifier::external_body]
pub struct ExIoError(std::io::Error);

/// Error type for documentation-provider operations.
///
/// `UserMessage` carries a complete user-facing diagnostic; callers render
/// it behind their own `error:` prefix.
#[derive(Debug)]
pub enum Error {
    UserMessage(String),
    /// A JSON failure, carried as its rendered text.
    Json(String),
    Io(std::io::Error),
}

impl Error {
    /// The diagnostic text when this is a user message.
    pub open spec fn user_text(self) -> Option<Seq<char>> {
        match self {
            Error::UserMessage(message) => Some(message@),
            _ => None,
        }
    }
}

/// A result seen through the views of its success value and its user message.
pub open spec fn result_view<T: View>(r: Result<T, Error>) -> Result<T::V, Option<Seq<char>>> {
    match r {
        Ok(value) => Ok(value@),
        Err(error) => Err(error.user_text()),
    }
}

/// The expected failure with this user message.
pub open spec fn user_err<V>(message: Seq<char>) -> Result<V, Option<Seq<char>>> {
    Err(Some(message))
}

/// Wrap a complete diagnostic.
pub fn user_message(message: String) -> (e: Error)
    ensures
        e.user_text() == Some(message@),
{
    Error::UserMessage(message)
}

} // verus!
