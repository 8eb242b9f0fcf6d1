//! The error type of every operation.

use vstd::prelude::*;

verus! {

/// `std::io::Error`, carried through as an opaque value: nothing is claimed
/// of what it holds.
#[verifier::external_type_specification]
#[verifier::external_body]
pub struct ExIoError(std::io::Error);

/// Custom error type for PDF processing.
///
/// - `IoError` wraps underlying I/O errors encountered during file operations.
/// - `CoreExceptionError` represents core exceptions with descriptive messages.
#[derive(Debug)]
pub enum PdfError {
    /// I/O error occurred while reading or writing a file.
    IoError(std::io::Error),
    /// A core exception occurred, described by a string message.
    CoreExceptionError(String),
}

/// What stands before the message of a core exception in its display text.
pub open spec fn core_prefix() -> Seq<char> {
    "Core exception error: "@
}

/// What stands before the text of an I/O error in its display text.
pub open spec fn io_prefix() -> Seq<char> {
    "Error reading the file: "@
}

impl PdfError {
    /// Whether this is a core exception with the message `message`.
    pub open spec fn is_core_with(&self, message: Seq<char>) -> bool {
        match self {
            PdfError::CoreExceptionError(m) => m@ == message,
            PdfError::IoError(_) => false,
        }
    }

    /// Whether `text` is a text by which this error is shown: for a core
    /// exception, `Core exception error: ` and the message; for an I/O error,
    /// `Error reading the file: ` and a text by which that error displays
    /// itself.
    pub open spec fn shows_as(&self, text: Seq<char>) -> bool {
        match self {
            PdfError::CoreExceptionError(m) => text == core_prefix() + m@,
            PdfError::IoError(e) => exists|detail: String|
                vstd::string::to_string_from_display_ensures::<std::io::Error>(e, detail) && text
                    == io_prefix() + detail@,
        }
    }

    /// Whether this is a core exception with a message that is not empty.
    pub open spec fn has_message(&self) -> bool {
        match self {
            PdfError::CoreExceptionError(m) => m@.len() > 0,
            PdfError::IoError(_) => false,
        }
    }

    /// Whether this is a core exception whose message is `lead` and then a
    /// text by which `cause` is shown.
    pub open spec fn wraps(&self, lead: Seq<char>, cause: PdfError) -> bool {
        exists|shown: Seq<char>| cause.shows_as(shown) && self.is_core_with(lead + shown)
    }

    /// A core exception with the given message.
    pub fn core_exception(message: String) -> (e: PdfError)
        ensures
            e == PdfError::CoreExceptionError(message),
            e.is_core_with(message@),
    {
        PdfError::CoreExceptionError(message)
    }

    /// The text by which the error is shown to a user. For a core exception
    /// it is `Core exception error: ` and the message; for an I/O error it is
    /// `Error reading the file: ` and the text of that error.
    pub fn to_string(&self) -> (s: String)
        ensures
            self.shows_as(s@),
    {
        match self {
            PdfError::CoreExceptionError(m) => {
                let mut s = String::from_str("Core exception error: ");
                s.append(m.as_str());
                s
            },
            PdfError::IoError(e) => {
                let mut s = String::from_str("Error reading the file: ");
                let detail = e.to_string();
                s.append(detail.as_str());
                assert(vstd::string::to_string_from_display_ensures::<std::io::Error>(e, detail)
                    && s@ == io_prefix() + detail@);
                s
            },
        }
    }

    /// A core exception whose message is `lead` and then the text by which
    /// `cause` is shown.
    pub fn wrap(lead: String, cause: &PdfError) -> (e: PdfError)
        ensures
            e.wraps(lead@, *cause),
    {
        let mut message = lead;
        let shown = cause.to_string();
        message.append(shown.as_str());
        assert(cause.shows_as(shown@) && message@ == lead@ + shown@);
        PdfError::CoreExceptionError(message)
    }
}

/// A core exception that wraps another core exception has one message only.
pub proof fn lemma_wraps_core(e: PdfError, lead: Seq<char>, cause: PdfError, message: Seq<char>)
    requires
        e.wraps(lead, cause),
        cause.is_core_with(message),
    ensures
        e.is_core_with(lead + core_prefix() + message),
{
    let shown = choose|shown: Seq<char>| cause.shows_as(shown) && e.is_core_with(lead + shown);
    assert(lead + shown =~= lead + core_prefix() + message);
}

} // verus!
