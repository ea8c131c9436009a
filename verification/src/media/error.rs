//! Errors of the media pipeline.

use vstd::prelude::*;
use vstd::std_specs::convert::FromSpecImpl;
use vstd::string::StringExecFns;

verus! {

/// `std::io::Error`, carried through as it came.
#[verifier::external_type_specification]
#[verifier::external_body]
pub struct ExIoError(std::io::Error);

/// What went wrong while media was read, decoded or written.
#[derive(Debug)]
pub enum Error {
    Io(std::io::Error),
    Codec { message: String },
    InvalidData { message: String },
    UnsupportedFormat { message: String },
    /// The stream has ended.
    Eof,
}

/// `to_string` of a `std::io::Error`: the text that the error gives of
/// itself. It may depend on the system, so nothing is stated of it.
#[verifier::external_body]
fn io_text(e: &std::io::Error) -> String {
    e.to_string()
}

/// Whether `s` begins with `head`.
pub open spec fn begins_with(s: Seq<char>, head: Seq<char>) -> bool {
    s.len() >= head.len() && s.subrange(0, head.len() as int) == head
}

impl From<std::io::Error> for Error {
    fn from(e: std::io::Error) -> (r: Error) {
        Error::Io(e)
    }
}

impl FromSpecImpl<std::io::Error> for Error {
    open spec fn obeys_from_spec() -> bool {
        true
    }

    open spec fn from_spec(e: std::io::Error) -> Error {
        Error::Io(e)
    }
}

impl Error {
    /// A failure of a codec, with its message.
    pub fn codec(message: &str) -> (r: Error)
        ensures
            r matches Error::Codec { message: m } && m@ == message@,
    {
        Error::Codec { message: message.to_owned() }
    }

    /// Data that cannot be what it should, with a message.
    pub fn invalid_data(message: &str) -> (r: Error)
        ensures
            r matches Error::InvalidData { message: m } && m@ == message@,
    {
        Error::InvalidData { message: message.to_owned() }
    }

    /// A format that is not supported, with a message.
    pub fn unsupported_format(message: &str) -> (r: Error)
        ensures
            r matches Error::UnsupportedFormat { message: m } && m@ == message@,
    {
        Error::UnsupportedFormat { message: message.to_owned() }
    }

    /// Whether the error is the end of the stream.
    pub fn is_eof(&self) -> (r: bool)
        ensures
            r == (self is Eof),
    {
        match self {
            Error::Eof => true,
            _ => false,
        }
    }

    /// The error as a line of text: what kind it is, then its message.
    pub fn to_string(&self) -> (s: String)
        ensures
            match *self {
                Error::Io(_) => begins_with(s@, "I/O error: "@),
                Error::Codec { message } => s@ == "codec error: "@ + message@,
                Error::InvalidData { message } => s@ == "invalid data: "@ + message@,
                Error::UnsupportedFormat { message } => s@ == "unsupported format: "@
                    + message@,
                Error::Eof => s@ == "end of stream"@,
            },
    {
        match self {
            Error::Io(e) => {
                let mut s = "I/O error: ".to_owned();
                let tail = io_text(e);
                s.append(tail.as_str());
                assert(s@.subrange(0, "I/O error: "@.len() as int) =~= "I/O error: "@);
                s
            },
            Error::Codec { message } => {
                let mut s = "codec error: ".to_owned();
                s.append(message.as_str());
                s
            },
            Error::InvalidData { message } => {
                let mut s = "invalid data: ".to_owned();
                s.append(message.as_str());
                s
            },
            Error::UnsupportedFormat { message } => {
                let mut s = "unsupported format: ".to_owned();
                s.append(message.as_str());
                s
            },
            Error::Eof => "end of stream".to_owned(),
        }
    }
}

} // verus!
