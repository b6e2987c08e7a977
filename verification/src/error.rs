//! The outcome taxonomy shared by every handler, and its mapping to HTTP.

use vstd::prelude::*;

use crate::text::{decimal, push_decimal};

verus! {

/// `std::io::Error`, carried through opaquely.
#[verifier::external_type_specification]
#[verifier::external_body]
pub struct ExIoError(std::io::Error);

/// The text of an I/O error.
///
/// Trusted: wraps `to_string` of `std::io::Error`. For a failure reported
/// by the operating system the text depends on the machine, so nothing is
/// claimed of it.
#[verifier::external_body]
fn io_error_text(err: &std::io::Error) -> (text: String) {
    err.to_string()
}

/// What kind of outcome a handler reports.
///
/// `Success` is not a fault: it carries a confirmation through the same
/// rendering path as the real errors.
#[derive(Copy, Clone, Debug, PartialEq, Eq, Structural)]
pub enum ErrorKind {
    Success,
    ServerError,
    UserError,
    NotFound,
    Unknown,
}

/// The HTTP status code that stands for an outcome kind.
pub open spec fn http_code_of(kind: ErrorKind) -> u16 {
    match kind {
        ErrorKind::Success => 200,
        ErrorKind::ServerError => 500,
        ErrorKind::UserError => 400,
        ErrorKind::NotFound => 404,
        ErrorKind::Unknown => 500,
    }
}

/// The human-readable name of an outcome kind.
pub open spec fn description_of(kind: ErrorKind) -> Seq<char> {
    match kind {
        ErrorKind::Success => "Success"@,
        ErrorKind::ServerError => "Server error"@,
        ErrorKind::UserError => "Client error"@,
        ErrorKind::NotFound => "Not found"@,
        ErrorKind::Unknown => "Unknown"@,
    }
}

/// The line shown to the client: `{status} ({description}): {message}`.
pub open spec fn html_line(kind: ErrorKind, msg: Seq<char>) -> Seq<char> {
    decimal(http_code_of(kind) as nat) + " ("@ + description_of(kind) + "): "@ + msg
}

/// The message of a failure that has an underlying cause:
/// `{description}: {cause}`.
pub open spec fn cause_message(description: Seq<char>, cause: Seq<char>) -> Seq<char> {
    description + ": "@ + cause
}

impl ErrorKind {
    pub fn as_http_code(self) -> (code: u16)
        ensures
            code == http_code_of(self),
    {
        match self {
            ErrorKind::Success => 200,
            ErrorKind::ServerError => 500,
            ErrorKind::UserError => 400,
            ErrorKind::NotFound => 404,
            ErrorKind::Unknown => 500,
        }
    }

    pub fn description(self) -> (text: &'static str)
        ensures
            text@ == description_of(self),
    {
        match self {
            ErrorKind::Success => "Success",
            ErrorKind::ServerError => "Server error",
            ErrorKind::UserError => "Client error",
            ErrorKind::NotFound => "Not found",
            ErrorKind::Unknown => "Unknown",
        }
    }

    /// The description as an owned string.
    pub fn to_string(self) -> (text: String)
        ensures
            text@ == description_of(self),
    {
        self.description().to_owned()
    }
}

/// An outcome: its kind and a message for the client.
#[derive(Debug)]
pub struct Error {
    pub kind: ErrorKind,
    pub msg: String,
}

impl Error {
    pub fn new(kind: ErrorKind, msg: &str) -> (err: Error)
        ensures
            err.kind == kind,
            err.msg@ == msg@,
    {
        Error { kind, msg: msg.to_owned() }
    }

    /// A server error whose message is `{description}: {cause}`.
    pub fn with_cause(description: &str, cause: &str) -> (err: Error)
        ensures
            err.kind == ErrorKind::ServerError,
            err.msg@ == cause_message(description@, cause@),
    {
        let mut msg = description.to_owned();
        msg.append(": ");
        msg.append(cause);
        Error { kind: ErrorKind::ServerError, msg }
    }

    /// A server error for a failed I/O operation: the message is the
    /// description, a colon and the text of the I/O error, whatever that
    /// text is on this machine.
    pub fn from_io_error(err: std::io::Error, description: &str) -> (res: Error)
        ensures
            res.kind == ErrorKind::ServerError,
            exists|cause: Seq<char>| res.msg@ == #[trigger] cause_message(description@, cause),
    {
        let cause = io_error_text(&err);
        Error::with_cause(description, cause.as_str())
    }

    pub fn as_http_code(&self) -> (code: u16)
        ensures
            code == http_code_of(self.kind),
    {
        self.kind.as_http_code()
    }

    pub fn as_html(&self) -> (line: String)
        ensures
            line@ == html_line(self.kind, self.msg@),
    {
        let mut line = String::new();
        push_decimal(&mut line, self.kind.as_http_code() as u128);
        line.append(" (");
        line.append(self.kind.description());
        line.append("): ");
        line.append(self.msg.as_str());
        assert(line@ =~= html_line(self.kind, self.msg@));
        line
    }
}

} // verus!
