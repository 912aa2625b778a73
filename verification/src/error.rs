//! The failure taxonomy shared by the encoder and a future decoder.
//!
//! Every failure carries a human-readable reason. `UnsupportedOperation`
//! marks a shape with no RESP mapping in this subset, `SerError` an
//! encoding-time invariant broken by the caller, and `DeError` is reserved
//! for decode-time violations.

use vstd::prelude::*;
use vstd::string::StringExecFns;

verus! {

/// The kind of a failure, with its diagnostic text.
#[derive(Debug)]
pub enum ErrorKind {
    UnsupportedOperation(String),
    DeError(String),
    SerError(String),
}

/// A failure raised while encoding (or, symmetrically, decoding).
#[derive(Debug)]
pub struct Error {
    pub kind: ErrorKind,
}

/// The display text of an error: its kind followed by its quoted reason.
pub open spec fn kind_message(k: ErrorKind) -> Seq<char> {
    match k {
        ErrorKind::UnsupportedOperation(t) => "unsupported operation: '"@ + t@ + "'"@,
        ErrorKind::DeError(t) => "deserialization error: '"@ + t@ + "'"@,
        ErrorKind::SerError(t) => "serialization error: '"@ + t@ + "'"@,
    }
}

impl Error {
    /// Wraps a kind as an error value.
    pub fn new(kind: ErrorKind) -> (e: Error)
        ensures
            e.kind == kind,
    {
        Error { kind }
    }

    /// Builds an encoding-time error from an arbitrary diagnostic message,
    /// so that the traversal driving the encoder can raise its own context
    /// through the same channel.
    pub fn custom(msg: String) -> (e: Error)
        ensures
            e.kind == ErrorKind::SerError(msg),
    {
        Error { kind: ErrorKind::SerError(msg) }
    }

    /// The display text combining the kind and its reason.
    pub fn message(&self) -> (s: String)
        ensures
            s@ == kind_message(self.kind),
    {
        match &self.kind {
            ErrorKind::UnsupportedOperation(t) => {
                let mut s = String::from_str("unsupported operation: '");
                s.append(t.as_str());
                s.append("'");
                s
            },
            ErrorKind::DeError(t) => {
                let mut s = String::from_str("deserialization error: '");
                s.append(t.as_str());
                s.append("'");
                s
            },
            ErrorKind::SerError(t) => {
                let mut s = String::from_str("serialization error: '");
                s.append(t.as_str());
                s.append("'");
                s
            },
        }
    }
}

} // verus!
