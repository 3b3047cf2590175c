//! The library's error type.
use vstd::prelude::*;

use crate::text::concat2;

verus! {

/// Errors of the archive operations. Failures reported by outside code carry its
/// message as text.
#[derive(Debug)]
pub enum DecmpError {
    UnsupportedFormat(String),
    PasswordRequired,
    WrongPassword,
    EncodingError(String),
    ArchiveNotFound(String),
    InvalidArchive(String),
    NoSources,
    Io(String),
    Zip(String),
    SevenZ(String),
    WalkDir(String),
}

/// `Result` with the library's error.
pub type Result<T> = std::result::Result<T, DecmpError>;

impl DecmpError {
    /// The text shown for the error.
    pub open spec fn spec_message(&self) -> Seq<char> {
        match self {
            DecmpError::UnsupportedFormat(s) => "unsupported archive format: "@ + s@,
            DecmpError::PasswordRequired => "password required for encrypted archive"@,
            DecmpError::WrongPassword => "wrong password or decryption failed"@,
            DecmpError::EncodingError(s) => "encoding error: "@ + s@,
            DecmpError::ArchiveNotFound(s) => "archive not found: "@ + s@,
            DecmpError::InvalidArchive(s) => "invalid archive: "@ + s@,
            DecmpError::NoSources => "no source files specified"@,
            DecmpError::Io(s) => s@,
            DecmpError::Zip(s) => s@,
            DecmpError::SevenZ(s) => s@,
            DecmpError::WalkDir(s) => s@,
        }
    }

    /// The text shown for the error.
    pub fn message(&self) -> (r: String)
        ensures
            r@ == self.spec_message(),
    {
        match self {
            DecmpError::UnsupportedFormat(s) => concat2("unsupported archive format: ", s.as_str()),
            DecmpError::PasswordRequired => String::from_str(
                "password required for encrypted archive",
            ),
            DecmpError::WrongPassword => String::from_str("wrong password or decryption failed"),
            DecmpError::EncodingError(s) => concat2("encoding error: ", s.as_str()),
            DecmpError::ArchiveNotFound(s) => concat2("archive not found: ", s.as_str()),
            DecmpError::InvalidArchive(s) => concat2("invalid archive: ", s.as_str()),
            DecmpError::NoSources => String::from_str("no source files specified"),
            DecmpError::Io(s) => String::from_str(s.as_str()),
            DecmpError::Zip(s) => String::from_str(s.as_str()),
            DecmpError::SevenZ(s) => String::from_str(s.as_str()),
            DecmpError::WalkDir(s) => String::from_str(s.as_str()),
        }
    }

    /// Whether the error asks for a (different) password.
    pub open spec fn spec_is_password_error(&self) -> bool {
        self is PasswordRequired || self is WrongPassword
    }

    /// Whether the error asks for a (different) password.
    pub fn is_password_error(&self) -> (r: bool)
        ensures
            r == self.spec_is_password_error(),
    {
        match self {
            DecmpError::PasswordRequired | DecmpError::WrongPassword => true,
            _ => false,
        }
    }
}

} // verus!
