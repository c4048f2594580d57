//! Error values of the library.

use vstd::prelude::*;
use crate::text::owned;

verus! {

/// What can go wrong between a caller and the backing store.
#[derive(Debug, Clone, Copy, PartialEq, Eq, Structural)]
pub enum ErrorKind {
    /// No session could be obtained from the store.
    ConnectFailed,
    /// A rendezvous wait ran past its deadline.
    Timeout,
    /// A subscription stream ended without delivering a message.
    NoMessage,
    /// A record could not be encoded or decoded.
    SerializationError,
    /// The store rejected or failed a command.
    StoreProtocolError,
}

impl ErrorKind {
    /// The text that names each kind.
    pub open spec fn spec_message(self) -> Seq<char> {
        match self {
            ErrorKind::ConnectFailed => "could not obtain a session from the store"@,
            ErrorKind::Timeout => "Timeout waiting for response"@,
            ErrorKind::NoMessage => "No message received"@,
            ErrorKind::SerializationError => "record could not be encoded or decoded"@,
            ErrorKind::StoreProtocolError => "the store rejected or failed a command"@,
        }
    }

    /// A human-readable line for this kind of error.
    pub fn message(&self) -> (text: String)
        ensures
            text@ == self.spec_message(),
    {
        match self {
            ErrorKind::ConnectFailed => owned("could not obtain a session from the store"),
            ErrorKind::Timeout => owned("Timeout waiting for response"),
            ErrorKind::NoMessage => owned("No message received"),
            ErrorKind::SerializationError => owned("record could not be encoded or decoded"),
            ErrorKind::StoreProtocolError => owned("the store rejected or failed a command"),
        }
    }
}

/// A generic error for callers that do not want an error type of their own.
#[derive(Debug)]
pub struct AnyErr;

impl Default for AnyErr {
    fn default() -> (e: AnyErr)
        ensures
            e == AnyErr,
    {
        AnyErr
    }
}

impl AnyErr {
    /// The text under which this error is shown: `AnyErr`.
    pub fn message(&self) -> (text: String)
        ensures
            text@ == "AnyErr"@,
    {
        owned("AnyErr")
    }
}

/// A generic error that carries a line of context.
#[derive(Debug)]
pub struct AnyErr2 {
    context: String,
}

impl View for AnyErr2 {
    type V = Seq<char>;

    closed spec fn view(&self) -> Seq<char> {
        self.context@
    }
}

impl Default for AnyErr2 {
    fn default() -> (e: AnyErr2)
        ensures
            e@ == Seq::<char>::empty(),
    {
        AnyErr2 { context: String::new() }
    }
}

impl AnyErr2 {
    /// An error whose context is `context`.
    pub fn new(context: &str) -> (e: AnyErr2)
        ensures
            e@ == context@,
    {
        AnyErr2 { context: owned(context) }
    }

    /// The text under which this error is shown: its context.
    pub fn message(&self) -> (text: String)
        ensures
            text@ == self@,
    {
        self.context.clone()
    }
}

} // verus!
