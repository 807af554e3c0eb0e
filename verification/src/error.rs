use vstd::prelude::*;
use vstd::string::StringExecFns;

verus! {

/// Where a failure came from.
#[derive(Copy, Clone, Debug, PartialEq, Eq, PartialOrd, Ord, Hash, Structural)]
pub enum ErrorKind {
    /// A local file or stream could not be read.
    Io,
    /// The archive engine reported a status other than success.
    LibArchive,
}

/// A failure: a message for the user and the kind of failure.
#[derive(Clone, Debug, PartialEq, Eq, PartialOrd, Ord, Hash)]
pub struct Error {
    pub message: String,
    pub kind: ErrorKind,
}

/// What an [`Error`] is: its message as a sequence of characters, and its kind.
pub struct ErrorModel {
    pub message: Seq<char>,
    pub kind: ErrorKind,
}

impl View for Error {
    type V = ErrorModel;

    open spec fn view(&self) -> ErrorModel {
        ErrorModel { message: self.message@, kind: self.kind }
    }
}

/// The failure that the engine reports with the given message.
pub open spec fn engine_failure(message: Seq<char>) -> ErrorModel {
    ErrorModel { message, kind: ErrorKind::LibArchive }
}

/// The failure of a local read with the given message.
pub open spec fn io_failure(message: Seq<char>) -> ErrorModel {
    ErrorModel { message, kind: ErrorKind::Io }
}

/// The message of an engine failure of which the engine has no text.
pub open spec fn unknown_failure_text() -> Seq<char> {
    "unknown archive error"@
}

/// The message for what the engine gave as its diagnostic text: that text,
/// and where it is empty, as it is when the engine has none, the message
/// made here.
pub open spec fn diagnostic_text(reported: Seq<char>) -> Seq<char> {
    if reported.len() == 0 {
        unknown_failure_text()
    } else {
        reported
    }
}

/// The failure type of std's I/O, carried through as it is.
#[verifier::external_type_specification]
#[verifier::external_body]
pub struct ExIoError(std::io::Error);

/// The text that `std::io::Error` shows of itself through `Display`. The
/// text is the platform's, so nothing is claimed of it.
#[verifier::external_body]
fn io_error_text(error: &std::io::Error) -> (text: String) {
    format!("{}", error)
}

impl Error {
    /// An engine failure with a message made here.
    pub fn new(message: &str) -> (e: Error)
        ensures
            e@ == engine_failure(message@),
    {
        Error { message: message.to_owned(), kind: ErrorKind::LibArchive }
    }

    /// An engine failure that carries the engine's own diagnostic text, as
    /// read from the live context at the moment of the failure. Where the
    /// engine had no text, which is handed in as the empty text, the message
    /// is made here.
    pub fn from_archive(diagnostic: String) -> (e: Error)
        ensures
            e@ == engine_failure(diagnostic_text(diagnostic@)),
    {
        if diagnostic.as_str().is_empty() {
            Error::new("unknown archive error")
        } else {
            Error { message: diagnostic, kind: ErrorKind::LibArchive }
        }
    }

    /// A local I/O failure, lifted from the message of the underlying failure.
    pub fn from_io(message: String) -> (e: Error)
        ensures
            e@ == io_failure(message@),
    {
        Error { message, kind: ErrorKind::Io }
    }

    /// A local I/O failure, lifted from the failure itself: its message is
    /// the text that the failure shows.
    pub fn from_io_error(error: &std::io::Error) -> (e: Error)
        ensures
            e@.kind == ErrorKind::Io,
    {
        Error::from_io(io_error_text(error))
    }

    /// The message alone.
    pub fn description(&self) -> (text: &str)
        ensures
            text@ == self@.message,
    {
        self.message.as_str()
    }

    /// The text shown to a user: the message, closed by a line feed.
    pub fn to_text(&self) -> (text: String)
        ensures
            text@ == self@.message + seq!['\n'],
    {
        proof {
            reveal_strlit("\n");
            assert("\n"@ =~= seq!['\n']);
        }
        self.message.clone().concat("\n")
    }
}

} // verus!
