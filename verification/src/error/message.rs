//! Error message text.

use vstd::prelude::*;

use super::location::ErrorLocation;

verus! {

/// The text of an error message.
#[derive(PartialEq, Eq, PartialOrd, Ord, Clone, Debug)]
pub struct ErrorMessage(String);

impl View for ErrorMessage {
    type V = Seq<char>;

    /// The characters of the message.
    open spec fn view(&self) -> Seq<char> {
        self.text_spec()
    }
}

impl ErrorMessage {
    /// The characters of the message.
    pub closed spec fn text_spec(self) -> Seq<char> {
        self.0@
    }

    /// The message holding `message`.
    pub closed spec fn holding(message: String) -> Self {
        ErrorMessage(message)
    }

    /// An `ErrorMessage` which owns a copy of the text of `message`.
    pub fn new(message: &str) -> (r: Self)
        ensures
            r@ == message@,
    {
        ErrorMessage(message.to_owned())
    }

    /// An `ErrorMessage` with the text of a `&'static str` (the text is
    /// copied into the message).
    pub fn constant(message: &'static str) -> (r: Self)
        ensures
            r@ == message@,
    {
        ErrorMessage(message.to_owned())
    }

    /// An `ErrorMessage` taking ownership of a [`String`].
    pub fn formatted(message: String) -> (r: Self)
        ensures
            r@ == message@,
    {
        ErrorMessage(message)
    }

    /// Access the message text as a `&str`.
    pub fn as_str(&self) -> (r: &str)
        ensures
            r@ == self@,
    {
        self.0.as_str()
    }

    /// Convert the [`ErrorMessage`] to a [`String`].
    pub fn into_string(self) -> (r: String)
        ensures
            r@ == self@,
    {
        self.0
    }
}

impl From<String> for ErrorMessage {
    fn from(message: String) -> (r: Self) {
        ErrorMessage(message)
    }
}

impl vstd::std_specs::convert::FromSpecImpl<String> for ErrorMessage {
    open spec fn obeys_from_spec() -> bool {
        true
    }

    open spec fn from_spec(message: String) -> Self {
        ErrorMessage::holding(message)
    }
}

/// Context attached to an error, from which its message is read.
pub trait ErrorContext {
    /// The message for an error with result code `code`.
    fn message(&self, code: i32) -> &str;
}

impl ErrorContext for ErrorMessage {
    /// The message text (whatever the code).
    fn message(&self, code: i32) -> (r: &str)
        ensures
            r@ == self@,
    {
        self.as_str()
    }
}

impl ErrorContext for (ErrorMessage, Option<ErrorLocation>) {
    /// The message text (whatever the code or location).
    fn message(&self, code: i32) -> (r: &str)
        ensures
            r@ == self.0@,
    {
        self.0.as_str()
    }
}

} // verus!
