//! The error taxonomy shared by every operation of the library.

use vstd::prelude::*;
use vstd::string::*;

verus! {

/// What an error is, mathematically: its kind and the text it carries.
pub enum Failure {
    Keyring(Seq<char>),
    Crypto(Seq<char>),
    Io(Seq<char>),
    Format(Seq<char>),
}

impl Failure {
    /// The line shown to a person: the name of the kind, then the text.
    pub open spec fn description(self) -> Seq<char> {
        match self {
            Failure::Keyring(text) => "Keyring error: "@ + text,
            Failure::Crypto(text) => "Crypto error: "@ + text,
            Failure::Io(text) => "I/O error: "@ + text,
            Failure::Format(text) => "Format error: "@ + text,
        }
    }
}

/// An error of the library. Every error ends the operation that raised it.
#[derive(Debug, PartialEq, Eq)]
pub enum LockBoxError {
    /// The secret store holds no usable master key.
    Keyring(String),
    /// A key has the wrong length, or the cipher refused to seal or open.
    Crypto(String),
    /// The input ended before the declared lengths were satisfied.
    Io(String),
    /// The header is malformed: bad magic, unsupported version, or a field
    /// too long for its length prefix.
    Format(String),
}

pub type LockBoxResult<T> = Result<T, LockBoxError>;

impl View for LockBoxError {
    type V = Failure;

    open spec fn view(&self) -> Failure {
        match self {
            LockBoxError::Keyring(text) => Failure::Keyring(text@),
            LockBoxError::Crypto(text) => Failure::Crypto(text@),
            LockBoxError::Io(text) => Failure::Io(text@),
            LockBoxError::Format(text) => Failure::Format(text@),
        }
    }
}

impl LockBoxError {
    /// The human-readable line for this error.
    pub fn message(&self) -> (line: String)
        ensures
            line@ == self@.description(),
    {
        match self {
            LockBoxError::Keyring(text) => "Keyring error: ".to_owned().concat(text.as_str()),
            LockBoxError::Crypto(text) => "Crypto error: ".to_owned().concat(text.as_str()),
            LockBoxError::Io(text) => "I/O error: ".to_owned().concat(text.as_str()),
            LockBoxError::Format(text) => "Format error: ".to_owned().concat(text.as_str()),
        }
    }
}

/// The outcome of an operation that yields bytes, as mathematical values.
pub open spec fn outcome(r: Result<Vec<u8>, LockBoxError>) -> Result<Seq<u8>, Failure> {
    match r {
        Ok(bytes) => Ok(bytes@),
        Err(e) => Err(e@),
    }
}

} // verus!
