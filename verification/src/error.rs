//! The classified error that extraction, handlers and the codec raise.

use vstd::prelude::*;

verus! {

/// A failure, classified so that an error handler can render it without
/// knowing which subsystem raised it.
#[derive(Debug, Clone, PartialEq, Eq)]
pub enum Error {
    /// An explicit HTTP status, with an optional message.
    Status(u16, Option<String>),
    /// Malformed query, form, JSON or path input; holds the parser's words.
    Deserialize(String),
    /// A failure of the HTTP or connection layer.
    Transport(String),
    /// A failure of the network or a stream.
    Io(String),
    /// Anything else that a handler or an interceptor raises.
    Custom(String),
}

/// The mathematical value of an [`Error`].
pub enum ErrorView {
    Status(u16, Option<Seq<char>>),
    Deserialize(Seq<char>),
    Transport(Seq<char>),
    Io(Seq<char>),
    Custom(Seq<char>),
}

/// The view of an optional string.
pub open spec fn opt_text(text: Option<String>) -> Option<Seq<char>> {
    match text {
        Some(s) => Some(s@),
        None => None,
    }
}

impl View for Error {
    type V = ErrorView;

    open spec fn view(&self) -> ErrorView {
        match *self {
            Error::Status(code, message) => ErrorView::Status(code, opt_text(message)),
            Error::Deserialize(source) => ErrorView::Deserialize(source@),
            Error::Transport(source) => ErrorView::Transport(source@),
            Error::Io(source) => ErrorView::Io(source@),
            Error::Custom(message) => ErrorView::Custom(message@),
        }
    }
}

impl ErrorView {
    /// The HTTP status that an error stands for: an explicit status passes
    /// through, malformed input is 400, everything else is 500.
    pub open spec fn status_code(self) -> u16 {
        match self {
            ErrorView::Status(code, _) => code,
            ErrorView::Deserialize(_) => 400,
            ErrorView::Transport(_) => 500,
            ErrorView::Io(_) => 500,
            ErrorView::Custom(_) => 500,
        }
    }
}

impl Error {
    /// An explicit status with a message.
    pub fn status(code: u16, message: &str) -> (e: Error)
        ensures
            e@ == ErrorView::Status(code, Some(message@)),
    {
        Error::Status(code, Some(message.to_owned()))
    }

    /// 400 Bad Request with a message.
    pub fn bad_request(message: &str) -> (e: Error)
        ensures
            e@ == ErrorView::Status(400, Some(message@)),
    {
        Error::Status(400, Some(message.to_owned()))
    }

    /// 422 Unprocessable Entity with a message.
    pub fn unprocessable(message: &str) -> (e: Error)
        ensures
            e@ == ErrorView::Status(422, Some(message@)),
    {
        Error::Status(422, Some(message.to_owned()))
    }

    /// 500 Internal Server Error with a message.
    pub fn internal(message: &str) -> (e: Error)
        ensures
            e@ == ErrorView::Status(500, Some(message@)),
    {
        Error::Status(500, Some(message.to_owned()))
    }

    /// A catch-all error with a message.
    pub fn custom(message: &str) -> (e: Error)
        ensures
            e@ == ErrorView::Custom(message@),
    {
        Error::Custom(message.to_owned())
    }

    /// The HTTP status that this error stands for.
    pub fn status_code(&self) -> (code: u16)
        ensures
            code == self@.status_code(),
    {
        match self {
            Error::Status(code, _) => *code,
            Error::Deserialize(_) => 400,
            Error::Transport(_) => 500,
            Error::Io(_) => 500,
            Error::Custom(_) => 500,
        }
    }
}

} // verus!
