use vstd::prelude::*;
use vstd::string::StringExecFns;

verus! {

/// What can go wrong while a payload is handled.
#[derive(Debug)]
pub enum Error {
    /// The controller could not be reached.
    Transport(String),
    /// The controller answered with a failure status; the text is its body.
    Api(String),
    /// The filesystem or the spawning of a process failed.
    Io(String),
    /// A value could not be decoded, or a contract lacks a field that its kind needs.
    Internal(String),
}

/// An error as plain text.
pub enum ErrorView {
    Transport(Seq<char>),
    Api(Seq<char>),
    Io(Seq<char>),
    Internal(Seq<char>),
}

impl View for Error {
    type V = ErrorView;

    open spec fn view(&self) -> ErrorView {
        match *self {
            Error::Transport(m) => ErrorView::Transport(m@),
            Error::Api(m) => ErrorView::Api(m@),
            Error::Io(m) => ErrorView::Io(m@),
            Error::Internal(m) => ErrorView::Internal(m@),
        }
    }
}

/// The text an error carries, whatever its kind.
pub open spec fn error_text(e: ErrorView) -> Seq<char> {
    match e {
        ErrorView::Transport(m) => m,
        ErrorView::Api(m) => m,
        ErrorView::Io(m) => m,
        ErrorView::Internal(m) => m,
    }
}

/// The name of the kind of an error.
pub open spec fn error_kind_name(e: ErrorView) -> Seq<char> {
    match e {
        ErrorView::Transport(_) => "Transport"@,
        ErrorView::Api(_) => "Api"@,
        ErrorView::Io(_) => "Io"@,
        ErrorView::Internal(_) => "Internal"@,
    }
}

/// A text as the standard library prints it for debugging: between double
/// quotes, with quotes, backslashes and control characters escaped.
pub uninterp spec fn debug_quoting(text: Seq<char>) -> Seq<char>;

/// Calls the `Debug` formatting of `str`, whose result is named by `debug_quoting`.
#[verifier::external_body]
fn debug_quoted(text: &str) -> (quoted: String)
    ensures
        quoted@ == debug_quoting(text@),
{
    format!("{:?}", text)
}

/// How an error reads in a report: the name of its kind, then its text
/// quoted between round brackets.
pub open spec fn error_description(e: ErrorView) -> Seq<char> {
    error_kind_name(e) + "("@ + debug_quoting(error_text(e)) + ")"@
}

impl Error {
    /// An internal error with the given text.
    pub fn internal(text: &str) -> (e: Error)
        ensures
            e@ == ErrorView::Internal(text@),
    {
        Error::Internal(String::from_str(text))
    }

    /// The text of the error.
    pub fn message(&self) -> (text: &String)
        ensures
            text@ == error_text(self@),
    {
        match self {
            Error::Transport(m) => m,
            Error::Api(m) => m,
            Error::Io(m) => m,
            Error::Internal(m) => m,
        }
    }

    /// The error as it reads in a report.
    pub fn describe(&self) -> (text: String)
        ensures
            text@ == error_description(self@),
    {
        let name = match self {
            Error::Transport(_) => "Transport",
            Error::Api(_) => "Api",
            Error::Io(_) => "Io",
            Error::Internal(_) => "Internal",
        };
        let mut text = String::from_str(name);
        text.append("(");
        let quoted = debug_quoted(self.message().as_str());
        text.append(quoted.as_str());
        text.append(")");
        text
    }
}

} // verus!
