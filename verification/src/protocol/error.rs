//! The error type of the library.

use vstd::prelude::*;

verus! {

/// What can go wrong.
#[derive(Debug)]
pub enum Error {
    /// Relays could not be reached, or refused.
    Transport(String),
    /// A message could not be encrypted.
    Encryption(String),
    /// A message could not be decrypted.
    Decryption(String),
    /// A message is not what it should be.
    Validation(String),
    /// Anything else.
    Other(String),
}

impl Clone for Error {
    fn clone(&self) -> (copy: Self)
        ensures
            copy == *self,
    {
        match self {
            Error::Transport(text) => Error::Transport(text.clone()),
            Error::Encryption(text) => Error::Encryption(text.clone()),
            Error::Decryption(text) => Error::Decryption(text.clone()),
            Error::Validation(text) => Error::Validation(text.clone()),
            Error::Other(text) => Error::Other(text.clone()),
        }
    }
}

impl Error {
    /// The reason, in words.
    pub fn reason(&self) -> (text: &str)
        ensures
            text@ == error_text(*self),
    {
        match self {
            Error::Transport(text) => text.as_str(),
            Error::Encryption(text) => text.as_str(),
            Error::Decryption(text) => text.as_str(),
            Error::Validation(text) => text.as_str(),
            Error::Other(text) => text.as_str(),
        }
    }
}

/// The reason that an error gives, in words.
pub open spec fn error_text(error: Error) -> Seq<char> {
    match error {
        Error::Transport(text) => text@,
        Error::Encryption(text) => text@,
        Error::Decryption(text) => text@,
        Error::Validation(text) => text@,
        Error::Other(text) => text@,
    }
}

/// Whether a result is that error.
pub open spec fn is_other<T>(result: Result<T, Error>, text: Seq<char>) -> bool {
    result matches Err(Error::Other(reason)) && reason@ == text
}

/// Whether a result is that refusal.
pub open spec fn is_refusal<T>(result: Result<T, Error>, text: Seq<char>) -> bool {
    result matches Err(Error::Validation(reason)) && reason@ == text
}

/// Whether a result is what is expected: that value, or an error for that reason.
pub open spec fn is_outcome<T: View>(result: Result<T, Error>, expected: Result<T::V, Seq<char>>) -> bool {
    match expected {
        Ok(value) => result matches Ok(given) && given@ == value,
        Err(reason) => is_other(result, reason),
    }
}

} // verus!
