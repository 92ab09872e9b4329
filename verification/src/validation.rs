//! Input validation: machine identifiers, custom identifiers and encrypted tokens.
//!
//! Every validator looks at its input with surrounding whitespace removed, and reports the
//! first rule that the input breaks.

use vstd::prelude::*;
use vstd::string::*;
use crate::error::{AppError, AppResult, ErrorView};
use crate::text::{lemma_trimmed_is_idempotent, trim_chars, trimmed};

verus! {

/// Longest custom identifier that is accepted, in characters.
pub const MAX_CUSTOM_ID_LEN: usize = 100;

/// Shortest encrypted token that is accepted, in characters.
pub const MIN_ENCRYPTED_ID_LEN: usize = 2;

/// Number of characters in a hyphenated UUID.
pub const HYPHENATED_UUID_LEN: usize = 36;

/// Number of characters in a machine identifier written without hyphens.
pub const PLAIN_UUID_LEN: usize = 32;

/// True for `0-9`, `a-f` and `A-F`.
pub open spec fn is_hex_char(c: char) -> bool {
    ('0' <= c && c <= '9') || ('a' <= c && c <= 'f') || ('A' <= c && c <= 'F')
}

/// True at the four positions of a hyphenated UUID that hold a hyphen.
pub open spec fn is_hyphen_position(i: int) -> bool {
    i == 8 || i == 13 || i == 18 || i == 23
}

/// The hyphenated shape: hexadecimal digits in groups of 8, 4, 4, 4 and 12, with a hyphen
/// between groups.
pub open spec fn is_hyphenated_uuid(s: Seq<char>) -> bool {
    &&& s.len() == HYPHENATED_UUID_LEN
    &&& forall|i: int|
        0 <= i < s.len() ==> if is_hyphen_position(i) {
            #[trigger] s[i] == '-'
        } else {
            is_hex_char(s[i])
        }
}

/// The plain shape: 32 hexadecimal digits.
pub open spec fn is_plain_uuid(s: Seq<char>) -> bool {
    &&& s.len() == PLAIN_UUID_LEN
    &&& forall|i: int| 0 <= i < s.len() ==> is_hex_char(#[trigger] s[i])
}

/// True for the characters that a custom identifier may not hold: NUL, line feed, carriage
/// return and tab.
pub open spec fn is_forbidden_control(c: char) -> bool {
    c == '\0' || c == '\n' || c == '\r' || c == '\t'
}

/// True for the characters of the base64 alphabet, padding included.
pub open spec fn is_base64_char(c: char) -> bool {
    ('A' <= c && c <= 'Z') || ('a' <= c && c <= 'z') || ('0' <= c && c <= '9') || c == '+' || c
        == '/' || c == '='
}

/// The rule that `s` breaks as a machine identifier, if any.
pub open spec fn uuid_fault(s: Seq<char>) -> Option<ErrorView> {
    let t = trimmed(s);
    if t.len() == 0 {
        Some(ErrorView::EmptyInput)
    } else if !is_hyphenated_uuid(t) && !is_plain_uuid(t) {
        Some(ErrorView::FormatError)
    } else {
        None
    }
}

/// The rule that `s` breaks as a custom identifier, if any.
pub open spec fn custom_id_fault(s: Seq<char>) -> Option<ErrorView> {
    let t = trimmed(s);
    if t.len() == 0 {
        Some(ErrorView::EmptyInput)
    } else if t.len() > MAX_CUSTOM_ID_LEN {
        Some(ErrorView::TooLong)
    } else if exists|i: int| 0 <= i < t.len() && is_forbidden_control(#[trigger] t[i]) {
        Some(ErrorView::ControlCharacter)
    } else {
        None
    }
}

/// The rule that `s` breaks as an encrypted token, if any.
pub open spec fn encrypted_id_fault(s: Seq<char>) -> Option<ErrorView> {
    let t = trimmed(s);
    if t.len() == 0 {
        Some(ErrorView::EmptyInput)
    } else if t.len() < MIN_ENCRYPTED_ID_LEN {
        Some(ErrorView::TooShort)
    } else if exists|i: int| 0 <= i < t.len() && !is_base64_char(#[trigger] t[i]) {
        Some(ErrorView::InvalidCharacters)
    } else {
        None
    }
}

/// The three kinds of input that are validated.
#[derive(Debug, Clone, Copy, PartialEq, Eq, Structural)]
pub enum InputClass {
    /// The machine identifier that the key is derived from.
    Uuid,
    /// The custom identifier to encrypt.
    CustomId,
    /// The encrypted token to decrypt.
    EncryptedId,
}

/// The text that tells which rule an input of class `class` broke. A fault that is no rule
/// of that class is described by its own text.
pub open spec fn rule_text(class: InputClass, fault: ErrorView) -> Seq<char> {
    match (class, fault) {
        (InputClass::Uuid, ErrorView::EmptyInput) => "UUID cannot be empty"@,
        (InputClass::Uuid, ErrorView::FormatError) => "Invalid UUID format"@,
        (InputClass::CustomId, ErrorView::EmptyInput) => "Custom ID cannot be empty"@,
        (InputClass::CustomId, ErrorView::TooLong) => "Custom ID cannot exceed 100 characters"@,
        (InputClass::CustomId, ErrorView::ControlCharacter) =>
            "Custom ID contains unsafe characters"@,
        (InputClass::EncryptedId, ErrorView::EmptyInput) => "Encrypted ID cannot be empty"@,
        (InputClass::EncryptedId, ErrorView::TooShort) => "Encrypted ID is too short"@,
        (InputClass::EncryptedId, ErrorView::InvalidCharacters) =>
            "Encrypted ID contains invalid characters"@,
        _ => fault.message_text(),
    }
}

/// What a validator returns for an input that breaks `fault`, or none.
pub open spec fn verdict(fault: Option<ErrorView>, r: AppResult<()>) -> bool {
    match fault {
        None => r is Ok,
        Some(f) => r matches Err(e) && e@ == f,
    }
}

fn is_hex_digit(c: char) -> (r: bool)
    ensures
        r == is_hex_char(c),
{
    ('0' <= c && c <= '9') || ('a' <= c && c <= 'f') || ('A' <= c && c <= 'F')
}

fn is_base64_symbol(c: char) -> (r: bool)
    ensures
        r == is_base64_char(c),
{
    ('A' <= c && c <= 'Z') || ('a' <= c && c <= 'z') || ('0' <= c && c <= '9') || c == '+' || c
        == '/' || c == '='
}

fn is_control(c: char) -> (r: bool)
    ensures
        r == is_forbidden_control(c),
{
    c == '\0' || c == '\n' || c == '\r' || c == '\t'
}

fn has_hyphenated_shape(t: &Vec<char>) -> (r: bool)
    ensures
        r == is_hyphenated_uuid(t@),
{
    if t.len() != HYPHENATED_UUID_LEN {
        return false;
    }
    let mut i: usize = 0;
    while i < HYPHENATED_UUID_LEN
        invariant
            i <= HYPHENATED_UUID_LEN == t@.len(),
            forall|j: int|
                0 <= j < i ==> if is_hyphen_position(j) {
                    #[trigger] t@[j] == '-'
                } else {
                    is_hex_char(t@[j])
                },
        decreases HYPHENATED_UUID_LEN - i,
    {
        let c = t[i];
        let ok = if i == 8 || i == 13 || i == 18 || i == 23 {
            c == '-'
        } else {
            is_hex_digit(c)
        };
        if !ok {
            return false;
        }
        i = i + 1;
    }
    true
}

fn has_plain_shape(t: &Vec<char>) -> (r: bool)
    ensures
        r == is_plain_uuid(t@),
{
    if t.len() != PLAIN_UUID_LEN {
        return false;
    }
    let mut i: usize = 0;
    while i < PLAIN_UUID_LEN
        invariant
            i <= PLAIN_UUID_LEN == t@.len(),
            forall|j: int| 0 <= j < i ==> is_hex_char(#[trigger] t@[j]),
        decreases PLAIN_UUID_LEN - i,
    {
        if !is_hex_digit(t[i]) {
            return false;
        }
        i = i + 1;
    }
    true
}

fn holds_control(t: &Vec<char>) -> (r: bool)
    ensures
        r == exists|i: int| 0 <= i < t@.len() && is_forbidden_control(#[trigger] t@[i]),
{
    let mut i: usize = 0;
    while i < t.len()
        invariant
            i <= t@.len(),
            forall|j: int| 0 <= j < i ==> !is_forbidden_control(#[trigger] t@[j]),
        decreases t@.len() - i,
    {
        if is_control(t[i]) {
            return true;
        }
        i = i + 1;
    }
    false
}

fn holds_non_base64(t: &Vec<char>) -> (r: bool)
    ensures
        r == exists|i: int| 0 <= i < t@.len() && !is_base64_char(#[trigger] t@[i]),
{
    let mut i: usize = 0;
    while i < t.len()
        invariant
            i <= t@.len(),
            forall|j: int| 0 <= j < i ==> is_base64_char(#[trigger] t@[j]),
        decreases t@.len() - i,
    {
        if !is_base64_symbol(t[i]) {
            return true;
        }
        i = i + 1;
    }
    false
}

/// Tells which rule an input of class `class` broke, given the fault that its validator
/// reported.
pub fn describe_fault(class: InputClass, fault: &AppError) -> (text: String)
    ensures
        text@ == rule_text(class, fault@),
{
    match (class, fault) {
        (InputClass::Uuid, AppError::EmptyInput) => String::from_str("UUID cannot be empty"),
        (InputClass::Uuid, AppError::FormatError) => String::from_str("Invalid UUID format"),
        (InputClass::CustomId, AppError::EmptyInput) => String::from_str(
            "Custom ID cannot be empty",
        ),
        (InputClass::CustomId, AppError::TooLong) => String::from_str(
            "Custom ID cannot exceed 100 characters",
        ),
        (InputClass::CustomId, AppError::ControlCharacter) => String::from_str(
            "Custom ID contains unsafe characters",
        ),
        (InputClass::EncryptedId, AppError::EmptyInput) => String::from_str(
            "Encrypted ID cannot be empty",
        ),
        (InputClass::EncryptedId, AppError::TooShort) => String::from_str(
            "Encrypted ID is too short",
        ),
        (InputClass::EncryptedId, AppError::InvalidCharacters) => String::from_str(
            "Encrypted ID contains invalid characters",
        ),
        _ => fault.message(),
    }
}

/// Checks that `uuid`, trimmed, is a hyphenated UUID or a 32-digit machine identifier.
pub fn validate_uuid(uuid: &str) -> (r: AppResult<()>)
    ensures
        verdict(uuid_fault(uuid@), r),
{
    let t = trim_chars(uuid);
    if t.len() == 0 {
        return Err(AppError::EmptyInput);
    }
    if !has_hyphenated_shape(&t) && !has_plain_shape(&t) {
        return Err(AppError::FormatError);
    }
    Ok(())
}

/// Checks that `custom_id`, trimmed, is not empty, has at most 100 characters and holds no
/// NUL, line feed, carriage return or tab.
pub fn validate_custom_id(custom_id: &str) -> (r: AppResult<()>)
    ensures
        verdict(custom_id_fault(custom_id@), r),
{
    let t = trim_chars(custom_id);
    if t.len() == 0 {
        return Err(AppError::EmptyInput);
    }
    if t.len() > MAX_CUSTOM_ID_LEN {
        return Err(AppError::TooLong);
    }
    if holds_control(&t) {
        return Err(AppError::ControlCharacter);
    }
    Ok(())
}

/// Checks that `encrypted_id`, trimmed, is not empty, has at least 2 characters and holds
/// only characters of the base64 alphabet.
pub fn validate_encrypted_id(encrypted_id: &str) -> (r: AppResult<()>)
    ensures
        verdict(encrypted_id_fault(encrypted_id@), r),
{
    let t = trim_chars(encrypted_id);
    if t.len() == 0 {
        return Err(AppError::EmptyInput);
    }
    if t.len() < MIN_ENCRYPTED_ID_LEN {
        return Err(AppError::TooShort);
    }
    if holds_non_base64(&t) {
        return Err(AppError::InvalidCharacters);
    }
    Ok(())
}

/// Validation is repeatable: whatever two runs of a validator return for one input, they
/// agree on success and on the rule that was broken.
pub proof fn lemma_verdict_is_unique(
    fault: Option<ErrorView>,
    first: AppResult<()>,
    second: AppResult<()>,
)
    requires
        verdict(fault, first),
        verdict(fault, second),
    ensures
        first is Ok <==> second is Ok,
        first matches Err(a) ==> second matches Err(b) && a@ == b@,
{
}

/// Surrounding whitespace does not matter: an input and the same input trimmed break the
/// same rule, or none.
pub proof fn lemma_validation_ignores_surrounding_whitespace(input: Seq<char>)
    ensures
        uuid_fault(trimmed(input)) == uuid_fault(input),
        custom_id_fault(trimmed(input)) == custom_id_fault(input),
        encrypted_id_fault(trimmed(input)) == encrypted_id_fault(input),
{
    lemma_trimmed_is_idempotent(input);
}

} // verus!
