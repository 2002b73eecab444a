//! Errors, and what is known of a failure that the JavaScript runtime reported.

use vstd::prelude::*;
use vstd::string::StringExecFns;

verus! {

/// The kind of an error of this library.
#[derive(Debug, Clone, Copy, PartialEq, Eq, Structural, Hash)]
pub enum ErrorKind {
    /// A parameter was not accepted.
    InvalidInput,
    /// The runtime does not offer the interface that was asked for.
    Unsupported,
    /// The connection could not be established.
    ConnectionRefused,
    /// The connection is closed or broke down.
    ConnectionReset,
}

impl ErrorKind {
    /// The words that describe an error of this kind where nothing more is
    /// known of it.
    pub open spec fn text(self) -> Seq<char> {
        match self {
            ErrorKind::InvalidInput => "invalid input parameter"@,
            ErrorKind::Unsupported => "unsupported"@,
            ErrorKind::ConnectionRefused => "connection refused"@,
            ErrorKind::ConnectionReset => "connection reset"@,
        }
    }

    /// The words that describe an error of this kind.
    pub fn to_string(&self) -> (s: String)
        ensures
            s@ == self.text(),
    {
        match self {
            ErrorKind::InvalidInput => String::from_str("invalid input parameter"),
            ErrorKind::Unsupported => String::from_str("unsupported"),
            ErrorKind::ConnectionRefused => String::from_str("connection refused"),
            ErrorKind::ConnectionReset => String::from_str("connection reset"),
        }
    }
}

/// An error: its kind, and a message for a reader.
#[derive(Debug)]
pub struct Error {
    /// The kind of the error.
    pub kind: ErrorKind,
    /// What went wrong, in words.
    pub message: String,
}

/// What an `Error` holds, with its message as a sequence of characters.
pub struct ErrorView {
    pub kind: ErrorKind,
    pub message: Seq<char>,
}

impl View for Error {
    type V = ErrorView;

    open spec fn view(&self) -> ErrorView {
        ErrorView { kind: self.kind, message: self.message@ }
    }
}

impl Clone for Error {
    fn clone(&self) -> (copy: Self)
        ensures
            copy@ == self@,
    {
        Error { kind: self.kind, message: self.message.clone() }
    }
}

impl Error {
    /// An error of the given kind with the given message.
    pub fn new(kind: ErrorKind, message: &str) -> (e: Self)
        ensures
            e@ == (ErrorView { kind, message: message@ }),
    {
        Error { kind, message: String::from_str(message) }
    }

    /// The kind of the error.
    pub fn kind(&self) -> (kind: ErrorKind)
        ensures
            kind == self@.kind,
    {
        self.kind
    }

    /// The message of the error.
    pub fn to_string(&self) -> (s: String)
        ensures
            s@ == self@.message,
    {
        self.message.clone()
    }
}

/// What is known of a value that JavaScript threw, or rejected a promise
/// with.
#[derive(Debug)]
pub enum JsFailure {
    /// An `Error` object, with its message where that is a string.
    Error { message: Option<String> },
    /// An event, with its type.
    Event { kind: String },
    /// Any other value, with what its `toString` method returned, where it has
    /// one that could be called and that returned a string.
    Other { printed: Option<String> },
}

/// What a `JsFailure` holds, with its texts as sequences of characters.
pub enum JsFailureView {
    Error { message: Option<Seq<char>> },
    Event { kind: Seq<char> },
    Other { printed: Option<Seq<char>> },
}

/// An optional text as an optional sequence of characters.
pub open spec fn text_view(text: Option<String>) -> Option<Seq<char>> {
    match text {
        Some(t) => Some(t@),
        None => None,
    }
}

impl View for JsFailure {
    type V = JsFailureView;

    open spec fn view(&self) -> JsFailureView {
        match *self {
            JsFailure::Error { message } => JsFailureView::Error { message: text_view(message) },
            JsFailure::Event { kind } => JsFailureView::Event { kind: kind@ },
            JsFailure::Other { printed } => JsFailureView::Other { printed: text_view(printed) },
        }
    }
}

impl JsFailureView {
    /// The message that the failure carries: the message of an error, the
    /// type of an event, the printed form of any other value.
    pub open spec fn message(self) -> Option<Seq<char>> {
        match self {
            JsFailureView::Error { message } => message,
            JsFailureView::Event { kind } => Some(kind),
            JsFailureView::Other { printed } => printed,
        }
    }

    /// The error of the given kind that stands for the failure: it carries
    /// the failure's message, or the words for its kind where the failure has
    /// no message.
    pub open spec fn error(self, kind: ErrorKind) -> ErrorView {
        ErrorView {
            kind,
            message: match self.message() {
                Some(text) => text,
                None => kind.text(),
            },
        }
    }
}

/// How a native operation stands.
#[derive(Debug)]
pub enum Native<T> {
    /// The operation is not complete.
    Pending,
    /// The operation is complete, with this result.
    Done(T),
    /// The operation failed, with this failure.
    Failed(JsFailure),
}

/// How far an operation has come.
#[derive(Debug)]
pub enum Progress {
    /// The operation is not complete.
    Pending,
    /// The operation is complete.
    Done,
    /// The operation failed.
    Failed(Error),
}

/// How far an operation has come, with the error by its view.
pub enum ProgressView {
    Pending,
    Done,
    Failed(ErrorView),
}

impl View for Progress {
    type V = ProgressView;

    open spec fn view(&self) -> ProgressView {
        match *self {
            Progress::Pending => ProgressView::Pending,
            Progress::Done => ProgressView::Done,
            Progress::Failed(e) => ProgressView::Failed(e@),
        }
    }
}

/// How far an operation has come that is done by a native operation, where
/// a failure of that is reported as an error of the given kind.
pub open spec fn native_progress(kind: ErrorKind, native: Native<()>) -> ProgressView {
    match native {
        Native::Pending => ProgressView::Pending,
        Native::Done(_) => ProgressView::Done,
        Native::Failed(failure) => ProgressView::Failed(failure@.error(kind)),
    }
}

/// What a sender answers that is asked whether a message may be sent.
#[derive(Debug)]
pub enum SendStep {
    /// A message may be sent.
    Ready,
    /// The connection broke down.
    Failed(Error),
    /// The write that was issued last is under way: the caller asks again
    /// when it is complete.
    AwaitWrite,
    /// Too much is queued for transmission: the caller asks again after this
    /// many milliseconds.
    Retry { after: u64 },
}

/// What a sender answers, with the error by its view.
pub enum SendStepView {
    Ready,
    Failed(ErrorView),
    AwaitWrite,
    Retry { after: u64 },
}

impl View for SendStep {
    type V = SendStepView;

    open spec fn view(&self) -> SendStepView {
        match *self {
            SendStep::Ready => SendStepView::Ready,
            SendStep::Failed(e) => SendStepView::Failed(e@),
            SendStep::AwaitWrite => SendStepView::AwaitWrite,
            SendStep::Retry { after } => SendStepView::Retry { after },
        }
    }
}

fn clone_text(text: &Option<String>) -> (copy: Option<String>)
    ensures
        text_view(copy) == text_view(*text),
{
    match text {
        Some(t) => Some(t.clone()),
        None => None,
    }
}

/// Extracts the error message from a JavaScript error.
pub fn js_err_msg(value: &JsFailure) -> (msg: Option<String>)
    ensures
        text_view(msg) == value@.message(),
{
    match value {
        JsFailure::Error { message } => clone_text(message),
        JsFailure::Event { kind } => Some(kind.clone()),
        JsFailure::Other { printed } => clone_text(printed),
    }
}

/// Creates an error of the given kind from the JavaScript error.
pub fn js_err(kind: ErrorKind, value: &JsFailure) -> (e: Error)
    ensures
        e@ == value@.error(kind),
{
    let message = match js_err_msg(value) {
        Some(text) => text,
        None => kind.to_string(),
    };
    Error { kind, message }
}

/// How far an operation has come that is done by a native operation: a
/// failure of that becomes an error of the given kind.
pub fn js_progress(kind: ErrorKind, native: Native<()>) -> (progress: Progress)
    ensures
        progress@ == native_progress(kind, native),
{
    match native {
        Native::Pending => Progress::Pending,
        Native::Done(_) => Progress::Done,
        Native::Failed(failure) => Progress::Failed(js_err(kind, &failure)),
    }
}

} // verus!
