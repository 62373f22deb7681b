//! The errors of the library, and their mathematical views.
use vstd::prelude::*;

verus! {

/// A piece of metadata that a bundle cannot do without.
#[derive(Clone, Copy, Debug, PartialEq, Eq, Structural)]
pub enum Field {
    Version,
    PrimaryUrl,
}

/// Why the operating system refused to hand over a file's content.
#[derive(Clone, Copy, Debug, PartialEq, Eq, Structural)]
pub enum IoErrorKind {
    NotFound,
    PermissionDenied,
    Other,
}

/// A failed read of one file: the kind of failure and what the operating
/// system said about it.
#[derive(Clone, Debug, PartialEq, Eq)]
pub struct IoFailure {
    pub kind: IoErrorKind,
    pub detail: String,
}

/// The view of an [`IoFailure`].
pub struct IoFailureView {
    pub kind: IoErrorKind,
    pub detail: Seq<char>,
}

impl View for IoFailure {
    type V = IoFailureView;

    open spec fn view(&self) -> IoFailureView {
        IoFailureView { kind: self.kind, detail: self.detail@ }
    }
}

/// Everything that can go wrong while a bundle is assembled.
#[derive(Clone, Debug, PartialEq, Eq)]
pub enum Error {
    /// A bundle was built without a required field.
    MissingField(Field),
    /// A path that has to be relative is absolute. Holds the path.
    InvalidPath(String),
    /// Joining a path onto the base URL gave no valid URL, or a text is no
    /// URL at all. Holds the path or the text.
    Url(String),
    /// A file could not be read. Holds the path of the file, relative to the
    /// base directory, and the failure.
    Io(String, IoFailure),
    /// The walk over the directory tree failed. Holds the path of the
    /// entry, or what the walk reported.
    Traversal(String),
}

/// The view of an [`Error`].
pub enum ErrorView {
    MissingField(Field),
    InvalidPath(Seq<char>),
    Url(Seq<char>),
    Io(Seq<char>, IoFailureView),
    Traversal(Seq<char>),
}

impl View for Error {
    type V = ErrorView;

    open spec fn view(&self) -> ErrorView {
        match *self {
            Error::MissingField(field) => ErrorView::MissingField(field),
            Error::InvalidPath(path) => ErrorView::InvalidPath(path@),
            Error::Url(text) => ErrorView::Url(text@),
            Error::Io(path, failure) => ErrorView::Io(path@, failure@),
            Error::Traversal(detail) => ErrorView::Traversal(detail@),
        }
    }
}

impl ErrorView {
    /// The text that describes the error to a person.
    pub open spec fn message(self) -> Seq<char> {
        match self {
            ErrorView::MissingField(Field::Version) => "no version"@,
            ErrorView::MissingField(Field::PrimaryUrl) => "no primary_url"@,
            ErrorView::InvalidPath(path) => "Path is not relative: "@ + path,
            ErrorView::Url(text) => "Invalid URL: "@ + text,
            ErrorView::Io(path, failure) => "Cannot read "@ + path + ": "@ + failure.detail,
            ErrorView::Traversal(detail) => "Cannot walk the directory: "@ + detail,
        }
    }
}

impl Error {
    /// The text that describes the error to a person.
    pub fn message(&self) -> (text: String)
        ensures
            text@ == self@.message(),
    {
        match self {
            Error::MissingField(Field::Version) => String::from_str("no version"),
            Error::MissingField(Field::PrimaryUrl) => String::from_str("no primary_url"),
            Error::InvalidPath(path) => String::from_str("Path is not relative: ").concat(
                path.as_str(),
            ),
            Error::Url(text) => String::from_str("Invalid URL: ").concat(text.as_str()),
            Error::Io(path, failure) => String::from_str("Cannot read ").concat(
                path.as_str(),
            ).concat(": ").concat(failure.detail.as_str()),
            Error::Traversal(detail) => String::from_str("Cannot walk the directory: ").concat(
                detail.as_str(),
            ),
        }
    }
}

} // verus!
