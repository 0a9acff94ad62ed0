//! The errors of showing and querying notifications.

use vstd::prelude::*;
use vstd::std_specs::convert::{FromSpec, FromSpecImpl};
use vstd::string::StringExecFns;

verus! {

/// The kinds of errors. Each holds the text that tells what went wrong.
#[derive(Debug, PartialEq, Eq)]
pub enum ErrorKind {
    /// The bus failed: the session could not be reached, a message could not
    /// be sent, or no reply came in time.
    Dbus(String),
    /// The notification center of macOS failed.
    MacNotificationSys(String),
    /// A number in a reply could not be read.
    Parse(String),
    /// The server follows a version of the specification that does not fit.
    SpecVersion(String),
    /// Any other failure, described in words.
    Msg(String),
}

/// The model of an [`ErrorKind`].
pub enum ErrorKindView {
    Dbus(Seq<char>),
    MacNotificationSys(Seq<char>),
    Parse(Seq<char>),
    SpecVersion(Seq<char>),
    Msg(Seq<char>),
}

impl View for ErrorKind {
    type V = ErrorKindView;

    open spec fn view(&self) -> ErrorKindView {
        match self {
            ErrorKind::Dbus(e) => ErrorKindView::Dbus(e@),
            ErrorKind::MacNotificationSys(e) => ErrorKindView::MacNotificationSys(e@),
            ErrorKind::Parse(e) => ErrorKindView::Parse(e@),
            ErrorKind::SpecVersion(e) => ErrorKindView::SpecVersion(e@),
            ErrorKind::Msg(e) => ErrorKindView::Msg(e@),
        }
    }
}

impl ErrorKindView {
    /// The text that an error of this kind shows: what the kind holds, after
    /// the words `Parsing Error: ` where a number could not be read.
    pub open spec fn text(self) -> Seq<char> {
        match self {
            ErrorKindView::Dbus(e) => e,
            ErrorKindView::MacNotificationSys(e) => e,
            ErrorKindView::Parse(e) => "Parsing Error: "@ + e,
            ErrorKindView::SpecVersion(e) => e,
            ErrorKindView::Msg(e) => e,
        }
    }
}

/// An error of this library.
#[derive(Debug, PartialEq, Eq)]
pub struct Error {
    kind: ErrorKind,
}

impl View for Error {
    type V = ErrorKindView;

    closed spec fn view(&self) -> ErrorKindView {
        self.kind@
    }
}

impl Error {
    /// The error of a kind.
    pub fn new(kind: ErrorKind) -> (error: Error)
        ensures
            error@ == kind@,
    {
        Error { kind }
    }

    /// The kind of the error.
    pub fn kind(&self) -> (kind: &ErrorKind)
        ensures
            kind@ == self@,
    {
        &self.kind
    }

    /// The text that the error shows.
    pub fn message(&self) -> (text: String)
        ensures
            text@ == self@.text(),
    {
        match &self.kind {
            ErrorKind::Dbus(e) => e.clone(),
            ErrorKind::MacNotificationSys(e) => e.clone(),
            ErrorKind::Parse(e) => {
                let mut text = "Parsing Error: ".to_owned();
                text.append(e.as_str());
                text
            },
            ErrorKind::SpecVersion(e) => e.clone(),
            ErrorKind::Msg(e) => e.clone(),
        }
    }
}

impl From<ErrorKind> for Error {
    fn from(kind: ErrorKind) -> (error: Error) {
        Error { kind }
    }
}

impl FromSpecImpl<ErrorKind> for Error {
    open spec fn obeys_from_spec() -> bool {
        true
    }

    closed spec fn from_spec(kind: ErrorKind) -> Error {
        Error { kind }
    }
}

/// The error that is made from a kind is of that kind.
pub proof fn lemma_error_of_kind(kind: ErrorKind)
    ensures
        <Error as FromSpec<ErrorKind>>::from_spec(kind)@ == kind@,
{
}

} // verus!
