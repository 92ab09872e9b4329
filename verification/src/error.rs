//! Error values shared by the validators and the operations.

use vstd::prelude::*;
use vstd::string::*;

verus! {

/// What can go wrong while validating input or transforming an identifier.
#[derive(Debug, Clone, PartialEq, Eq)]
pub enum AppError {
    /// An input was refused; the text says why.
    ValidationError(String),
    /// The input is empty once surrounding whitespace is removed.
    EmptyInput,
    /// The input does not have the required shape.
    FormatError,
    /// The input is longer than allowed.
    TooLong,
    /// The input is shorter than allowed.
    TooShort,
    /// The input holds NUL, a line feed, a carriage return or a tab.
    ControlCharacter,
    /// The input holds a character outside the base64 alphabet.
    InvalidCharacters,
    /// The token body is not well-formed base64.
    DecodeError,
    /// The sealed bytes failed authentication under the derived key.
    DecryptionError,
    /// The opened bytes are not valid UTF-8.
    EncodingError,
}

/// The mathematical value of an [`AppError`]: the same cases, with text as a sequence of
/// characters.
pub enum ErrorView {
    ValidationError(Seq<char>),
    EmptyInput,
    FormatError,
    TooLong,
    TooShort,
    ControlCharacter,
    InvalidCharacters,
    DecodeError,
    DecryptionError,
    EncodingError,
}

impl View for AppError {
    type V = ErrorView;

    open spec fn view(&self) -> ErrorView {
        match self {
            AppError::ValidationError(msg) => ErrorView::ValidationError(msg@),
            AppError::EmptyInput => ErrorView::EmptyInput,
            AppError::FormatError => ErrorView::FormatError,
            AppError::TooLong => ErrorView::TooLong,
            AppError::TooShort => ErrorView::TooShort,
            AppError::ControlCharacter => ErrorView::ControlCharacter,
            AppError::InvalidCharacters => ErrorView::InvalidCharacters,
            AppError::DecodeError => ErrorView::DecodeError,
            AppError::DecryptionError => ErrorView::DecryptionError,
            AppError::EncodingError => ErrorView::EncodingError,
        }
    }
}

impl ErrorView {
    /// The text that describes this error.
    pub open spec fn message_text(self) -> Seq<char> {
        match self {
            ErrorView::ValidationError(msg) => "Validation error: "@ + msg,
            ErrorView::EmptyInput => "input is empty"@,
            ErrorView::FormatError => "input has the wrong format"@,
            ErrorView::TooLong => "input is too long"@,
            ErrorView::TooShort => "input is too short"@,
            ErrorView::ControlCharacter => "input contains a control character"@,
            ErrorView::InvalidCharacters => "input contains invalid characters"@,
            ErrorView::DecodeError => "token is not valid base64"@,
            ErrorView::DecryptionError => "decryption failed"@,
            ErrorView::EncodingError => "decrypted data is not valid UTF-8"@,
        }
    }
}

/// Result of an operation that may fail with an [`AppError`].
pub type AppResult<T> = Result<T, AppError>;

impl AppError {
    /// Renders this error as text.
    pub fn message(&self) -> (s: String)
        ensures
            s@ == self@.message_text(),
    {
        match self {
            AppError::ValidationError(msg) => String::from_str("Validation error: ").concat(
                msg.as_str(),
            ),
            AppError::EmptyInput => String::from_str("input is empty"),
            AppError::FormatError => String::from_str("input has the wrong format"),
            AppError::TooLong => String::from_str("input is too long"),
            AppError::TooShort => String::from_str("input is too short"),
            AppError::ControlCharacter => String::from_str("input contains a control character"),
            AppError::InvalidCharacters => String::from_str("input contains invalid characters"),
            AppError::DecodeError => String::from_str("token is not valid base64"),
            AppError::DecryptionError => String::from_str("decryption failed"),
            AppError::EncodingError => String::from_str("decrypted data is not valid UTF-8"),
        }
    }
}

impl From<String> for AppError {
    fn from(msg: String) -> (e: AppError)
        ensures
            e@ == ErrorView::ValidationError(msg@),
    {
        AppError::ValidationError(msg)
    }
}

impl vstd::std_specs::convert::FromSpecImpl<String> for AppError {
    open spec fn obeys_from_spec() -> bool {
        true
    }

    open spec fn from_spec(msg: String) -> AppError {
        AppError::ValidationError(msg)
    }
}

impl<'a> From<&'a str> for AppError {
    fn from(msg: &'a str) -> (e: AppError)
        ensures
            e@ == ErrorView::ValidationError(msg@),
    {
        AppError::ValidationError(String::from_str(msg))
    }
}

impl<'a> vstd::std_specs::convert::FromSpecImpl<&'a str> for AppError {
    /// The text alone does not single out one `String`, so `from` states its result itself.
    open spec fn obeys_from_spec() -> bool {
        false
    }

    open spec fn from_spec(msg: &'a str) -> AppError {
        choose|e: AppError| e@ == ErrorView::ValidationError(msg@)
    }
}

} // verus!
