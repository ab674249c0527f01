//! The errors of the game and their messages.

use crate::text::{decimal, push_decimal};
use vstd::prelude::*;
use vstd::string::*;

verus! {

/// Where the bundled word list lies; named in the message of
/// [`AppError::InvalidCharset`].
pub const WORDS_FILE_PATH: &'static str = "assets/words.txt";

/// The result of an operation that may fail with an [`AppError`].
pub type AppResult<T> = Result<T, AppError>;

/// What can go wrong.
#[derive(Clone, Copy, Debug, PartialEq, Eq)]
pub enum AppError {
    /// The word list holds no word.
    NoWords,
    /// The input stream could not be read.
    StdIoRead,
    /// The word list is not valid UTF-8.
    InvalidCharset,
    /// A guess did not have as many characters as the target word, whose
    /// length is carried.
    InvalidGuessLength(usize),
}

/// The kind of an [`AppError`]: its variant without what it carries.
#[derive(Clone, Copy, Debug, PartialEq, Eq)]
pub enum AppErrorKind {
    NoWords,
    StdIoRead,
    InvalidCharset,
    InvalidGuessLength,
}

impl AppErrorKind {
    /// The name of the kind as it is printed.
    pub open spec fn name(self) -> Seq<char> {
        match self {
            AppErrorKind::NoWords => "NoWords"@,
            AppErrorKind::StdIoRead => "StdIoRead"@,
            AppErrorKind::InvalidCharset => "InvalidCharset"@,
            AppErrorKind::InvalidGuessLength => "InvalidGuessLength"@,
        }
    }

    /// The name of the kind as it is printed.
    pub fn as_str(&self) -> (r: &'static str)
        ensures
            r@ == self.name(),
    {
        match self {
            AppErrorKind::NoWords => "NoWords",
            AppErrorKind::StdIoRead => "StdIoRead",
            AppErrorKind::InvalidCharset => "InvalidCharset",
            AppErrorKind::InvalidGuessLength => "InvalidGuessLength",
        }
    }
}

impl AppError {
    /// The kind of the error.
    pub open spec fn spec_kind(&self) -> AppErrorKind {
        match self {
            AppError::NoWords => AppErrorKind::NoWords,
            AppError::StdIoRead => AppErrorKind::StdIoRead,
            AppError::InvalidCharset => AppErrorKind::InvalidCharset,
            AppError::InvalidGuessLength(_) => AppErrorKind::InvalidGuessLength,
        }
    }

    /// What the message says after the kind.
    pub open spec fn detail(self) -> Seq<char> {
        match self {
            AppError::NoWords => "No words found in file."@,
            AppError::StdIoRead => "Failed to read stdio."@,
            AppError::InvalidCharset => "The Words file ('"@ + WORDS_FILE_PATH@
                + "') contains invalid UTF-8 characters"@,
            AppError::InvalidGuessLength(expected_len) => "Your guess word must be "@ + decimal(
                expected_len as nat,
            ) + " letters long."@,
        }
    }

    /// The message of the error: its kind in square brackets, a space, and
    /// the detail.
    pub open spec fn message(self) -> Seq<char> {
        "["@ + self.spec_kind().name() + "] "@ + self.detail()
    }

    /// The kind of the error.
    #[verifier::when_used_as_spec(spec_kind)]
    pub fn kind(&self) -> (k: AppErrorKind)
        ensures
            k == self.spec_kind(),
    {
        match self {
            AppError::NoWords => AppErrorKind::NoWords,
            AppError::StdIoRead => AppErrorKind::StdIoRead,
            AppError::InvalidCharset => AppErrorKind::InvalidCharset,
            AppError::InvalidGuessLength(_) => AppErrorKind::InvalidGuessLength,
        }
    }

    /// The message of the error.
    pub fn to_string(&self) -> (r: String)
        ensures
            r@ == self.message(),
    {
        let mut r = String::from_str("[");
        r.append(self.kind().as_str());
        r.append("] ");
        match self {
            AppError::NoWords => {
                r.append("No words found in file.");
            },
            AppError::StdIoRead => {
                r.append("Failed to read stdio.");
            },
            AppError::InvalidCharset => {
                r.append("The Words file ('");
                r.append(WORDS_FILE_PATH);
                r.append("') contains invalid UTF-8 characters");
            },
            AppError::InvalidGuessLength(expected_len) => {
                r.append("Your guess word must be ");
                push_decimal(&mut r, *expected_len);
                r.append(" letters long.");
            },
        }
        r
    }
}

/// Turns the error of a result into its message.
pub trait AppResultExt<T> {
    /// The result with its error, if any, replaced by the error's message.
    fn err_as_string(self) -> (r: Result<T, String>);
}

impl<T> AppResultExt<T> for AppResult<T> {
    fn err_as_string(self) -> (r: Result<T, String>)
        ensures
            match self {
                Ok(value) => r == Ok::<T, String>(value),
                Err(e) => r matches Err(text) && text@ == e.message(),
            },
    {
        match self {
            Ok(value) => Ok(value),
            Err(e) => Err(e.to_string()),
        }
    }
}

} // verus!
