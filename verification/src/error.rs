//! Errors that the adapters hand back to the host.

use vstd::prelude::*;

verus! {

/// The kind of a recoverable error.
#[derive(Clone, Copy, Debug, PartialEq, Eq, Structural)]
pub enum ErrorCode {
    /// A move text or code that cannot be used, or a query for the wrong seat.
    InvalidInput,
    /// A position text that the engine does not accept.
    InvalidState,
    /// A legacy field where none is supported.
    InvalidLegacy,
    /// A form of input that the adapter does not support.
    FeatureUnsupported,
    /// A move code from the host that stands for no move.
    InvalidMove,
}

/// A recoverable error: its kind and a message for people.
#[derive(Debug)]
pub struct Error {
    pub code: ErrorCode,
    pub message: String,
}

impl Error {
    /// Whether the error has kind `code` and says `message`.
    pub open spec fn says(self, code: ErrorCode, message: Seq<char>) -> bool {
        self.code == code && self.message@ == message
    }

    /// An error of kind `code` that says `message`.
    pub fn new(code: ErrorCode, message: &str) -> (r: Error)
        ensures
            r.says(code, message@),
    {
        Error { code, message: message.to_owned() }
    }

    /// An error of kind `code` that says `message`.
    pub fn new_dynamic(code: ErrorCode, message: String) -> (r: Error)
        ensures
            r.says(code, message@),
    {
        Error { code, message }
    }

    /// The message.
    pub fn message(&self) -> (r: &str)
        ensures
            r@ == self.message@,
    {
        self.message.as_str()
    }
}

} // verus!
