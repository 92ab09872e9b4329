//! The two operations behind their validators: nothing is encrypted or decrypted before the
//! inputs have passed validation.

use vstd::prelude::*;
use crate::crypto::can_encrypt;
use crate::error::{AppError, ErrorView};
use crate::operations::{
    decrypt_outcome, encrypt_outcome, token_with_prefix, DecryptResult, EncryptResult, Outcome,
};
use crate::text::{lemma_trimmed_unchanged, utf8_len};
use crate::validation::{
    custom_id_fault, describe_fault, encrypted_id_fault, is_base64_char, rule_text, uuid_fault,
    validate_custom_id, validate_encrypted_id, validate_uuid, InputClass,
};

verus! {

/// The failure that reports a broken validation rule: a validation error whose text says
/// which rule the input of class `class` broke.
pub open spec fn refusal(class: InputClass, fault: ErrorView) -> Outcome {
    Outcome::Failure(ErrorView::ValidationError(rule_text(class, fault)))
}

/// What encrypting gives once validation is in front of it: the identifier is checked
/// first, then the seed, and only then is the identifier encrypted.
pub open spec fn checked_encrypt_outcome(custom_id: Seq<char>, seed: Seq<char>) -> Outcome {
    match custom_id_fault(custom_id) {
        Some(fault) => refusal(InputClass::CustomId, fault),
        None => match uuid_fault(seed) {
            Some(fault) => refusal(InputClass::Uuid, fault),
            None => encrypt_outcome(custom_id, seed),
        },
    }
}

/// What decrypting gives once validation is in front of it: the token is checked first,
/// then the seed, and only then is the token decrypted.
pub open spec fn checked_decrypt_outcome(token: Seq<char>, seed: Seq<char>) -> Outcome {
    match encrypted_id_fault(token) {
        Some(fault) => refusal(InputClass::EncryptedId, fault),
        None => match uuid_fault(seed) {
            Some(fault) => refusal(InputClass::Uuid, fault),
            None => decrypt_outcome(token, seed),
        },
    }
}

/// A token made of the version prefix and a body in the base64 alphabet passes validation.
pub proof fn lemma_prefixed_token_is_valid(body: Seq<char>)
    requires
        forall|i: int| 0 <= i < body.len() ==> is_base64_char(#[trigger] body[i]),
    ensures
        encrypted_id_fault(token_with_prefix(body)) is None,
{
    let token = token_with_prefix(body);
    assert forall|i: int| 0 <= i < token.len() implies is_base64_char(#[trigger] token[i]) by {
        if i >= 2 {
            assert(token[i] == body[i - 2]);
        }
    }
    assert(is_base64_char(token[0]));
    assert(is_base64_char(token.last()));
    lemma_trimmed_unchanged(token);
}

fn refuse(class: InputClass, fault: &AppError) -> (e: AppError)
    ensures
        Outcome::Failure(e@) == refusal(class, fault@),
{
    AppError::ValidationError(describe_fault(class, fault))
}

/// Validates `custom_id` and `uuid`, then encrypts `custom_id` under the key of `uuid`.
///
/// On success, the token made of the version prefix and the resulting body passes
/// validation and decrypts to `custom_id` under the same `uuid`.
pub fn perform_encrypt(custom_id: &str, uuid: &str) -> (r: EncryptResult)
    requires
        can_encrypt(utf8_len(custom_id@)),
    ensures
        r@ == checked_encrypt_outcome(custom_id@, uuid@),
        r matches EncryptResult::Success { original_id, encrypted_id }
            ==> checked_decrypt_outcome(token_with_prefix(encrypted_id@), uuid@)
            == (Outcome::Success {
            given: token_with_prefix(encrypted_id@),
            produced: custom_id@,
        }),
{
    if let Err(e) = validate_custom_id(custom_id) {
        return EncryptResult::Error(refuse(InputClass::CustomId, &e));
    }
    if let Err(e) = validate_uuid(uuid) {
        return EncryptResult::Error(refuse(InputClass::Uuid, &e));
    }
    let r = crate::operations::perform_encrypt(custom_id, uuid);
    proof {
        if let Outcome::Success { given, produced } = r@ {
            lemma_prefixed_token_is_valid(produced);
        }
    }
    r
}

/// Validates `enc_id` and `uuid`, then decrypts the token `enc_id` under the key of `uuid`.
pub fn perform_decrypt(enc_id: &str, uuid: &str) -> (r: DecryptResult)
    ensures
        r@ == checked_decrypt_outcome(enc_id@, uuid@),
{
    if let Err(e) = validate_encrypted_id(enc_id) {
        return DecryptResult::Error(refuse(InputClass::EncryptedId, &e));
    }
    if let Err(e) = validate_uuid(uuid) {
        return DecryptResult::Error(refuse(InputClass::Uuid, &e));
    }
    crate::operations::perform_decrypt(enc_id, uuid)
}

} // verus!
