//! The two operations on input that is taken as it comes: a custom identifier becomes a
//! token body, and a token becomes the custom identifier again.

use vstd::prelude::*;
use vstd::slice::slice_subrange;
use vstd::string::*;
use vstd::utf8::*;
use crate::crypto::{
    can_encrypt, decode, decoded_text, decrypted_bytes, encrypt, encrypted_text, opened_under,
    symmetric_crypt,
};
use crate::error::{AppError, ErrorView};
use crate::text::{lemma_encode_utf8_concat, string_from_utf8, utf8_len};
use crate::validation::is_base64_char;

verus! {

/// Number of bytes that a token carries in front of its base64 body.
pub const PREFIX_LEN: usize = 2;

/// The mathematical value of an operation's result.
pub enum Outcome {
    /// The operation turned `given` into `produced`.
    Success { given: Seq<char>, produced: Seq<char> },
    /// The operation failed.
    Failure(ErrorView),
}

/// Result of encrypting a custom identifier.
#[derive(Debug, Clone)]
pub enum EncryptResult {
    Success { original_id: String, encrypted_id: String },
    Error(AppError),
}

/// Result of decrypting a token.
#[derive(Debug, Clone)]
pub enum DecryptResult {
    Success { encrypted_id: String, decrypted_id: String },
    Error(AppError),
}

impl View for EncryptResult {
    type V = Outcome;

    open spec fn view(&self) -> Outcome {
        match self {
            EncryptResult::Success { original_id, encrypted_id } => Outcome::Success {
                given: original_id@,
                produced: encrypted_id@,
            },
            EncryptResult::Error(e) => Outcome::Failure(e@),
        }
    }
}

impl View for DecryptResult {
    type V = Outcome;

    open spec fn view(&self) -> Outcome {
        match self {
            DecryptResult::Success { encrypted_id, decrypted_id } => Outcome::Success {
                given: encrypted_id@,
                produced: decrypted_id@,
            },
            DecryptResult::Error(e) => Outcome::Failure(e@),
        }
    }
}

/// The token that carries `body`: the version prefix `00`, then the body.
pub open spec fn token_with_prefix(body: Seq<char>) -> Seq<char> {
    seq!['0', '0'] + body
}

/// What encrypting `custom_id` under `seed` gives.
pub open spec fn encrypt_outcome(custom_id: Seq<char>, seed: Seq<char>) -> Outcome {
    Outcome::Success {
        given: custom_id,
        produced: encrypted_text(encode_utf8(custom_id), seed),
    }
}

/// What is made of the bytes that opening a token's ciphertext gave, `None` standing for a
/// failed authentication.
pub open spec fn opened_outcome(token: Seq<char>, opened: Option<Seq<u8>>) -> Outcome {
    match opened {
        None => Outcome::Failure(ErrorView::DecryptionError),
        Some(message) => if valid_utf8(message) {
            Outcome::Success { given: token, produced: decode_utf8(message) }
        } else {
            Outcome::Failure(ErrorView::EncodingError)
        },
    }
}

/// What decrypting `token` under `seed` gives: the first `PREFIX_LEN` bytes are dropped,
/// the rest is decoded, opened and read as text.
pub open spec fn decrypt_outcome(token: Seq<char>, seed: Seq<char>) -> Outcome {
    let bytes = encode_utf8(token);
    if bytes.len() < PREFIX_LEN {
        Outcome::Failure(ErrorView::FormatError)
    } else {
        match decoded_text(bytes.subrange(PREFIX_LEN as int, bytes.len() as int)) {
            None => Outcome::Failure(ErrorView::DecodeError),
            Some(sealed) => opened_outcome(token, opened_under(sealed, seed)),
        }
    }
}

/// A token made of the version prefix and a body that decrypts to the bytes of `text`
/// decrypts to `text`.
pub proof fn lemma_prefixed_token_decrypts(body: Seq<char>, seed: Seq<char>, text: Seq<char>)
    requires
        decrypted_bytes(encode_utf8(body), seed) == Some(encode_utf8(text)),
    ensures
        decrypt_outcome(token_with_prefix(body), seed) == (Outcome::Success {
            given: token_with_prefix(body),
            produced: text,
        }),
{
    let prefix = seq!['0', '0'];
    let token = token_with_prefix(body);
    lemma_encode_utf8_concat(prefix, body);
    assert(is_ascii_chars(prefix));
    is_ascii_chars_encode_utf8(prefix);
    let bytes = encode_utf8(token);
    assert(bytes.subrange(PREFIX_LEN as int, bytes.len() as int) =~= encode_utf8(body));
    encode_utf8_valid_utf8(text);
    encode_utf8_decode_utf8(text);
}

/// Makes the token that carries `encrypted_id`: the version prefix `00`, then the body.
pub fn versioned_token(encrypted_id: &str) -> (token: String)
    ensures
        token@ == token_with_prefix(encrypted_id@),
{
    proof {
        reveal_strlit("00");
        assert("00"@ =~= seq!['0', '0']);
    }
    String::from_str("00").concat(encrypted_id)
}

/// Encrypts `custom_id` under the key of `uuid`. The token made of the version prefix and
/// the resulting body decrypts to `custom_id` under the same `uuid`.
pub fn perform_encrypt(custom_id: &str, uuid: &str) -> (r: EncryptResult)
    requires
        can_encrypt(utf8_len(custom_id@)),
    ensures
        r@ == encrypt_outcome(custom_id@, uuid@),
        r matches EncryptResult::Success { original_id, encrypted_id } && (forall|i: int|
            0 <= i < encrypted_id@.len() ==> is_base64_char(#[trigger] encrypted_id@[i]))
            && decrypt_outcome(token_with_prefix(encrypted_id@), uuid@) == (Outcome::Success {
            given: token_with_prefix(encrypted_id@),
            produced: custom_id@,
        }),
{
    match encrypt(custom_id.as_bytes(), uuid) {
        Ok(encrypted_string) => {
            proof {
                lemma_prefixed_token_decrypts(encrypted_string@, uuid@, custom_id@);
            }
            EncryptResult::Success {
                original_id: String::from_str(custom_id),
                encrypted_id: encrypted_string,
            }
        },
        Err(_) => vstd::pervasive::unreached(),
    }
}

/// Turns the outcome of opening the ciphertext of `enc_id` into the result of the
/// decryption: a failed authentication is a decryption error, bytes that are not UTF-8 are
/// an encoding error, and text is the decrypted identifier.
pub fn finish_decrypt(enc_id: &str, opened: Result<Vec<u8>, ()>) -> (r: DecryptResult)
    ensures
        r@ == opened_outcome(
            enc_id@,
            match opened {
                Ok(message) => Some(message@),
                Err(_) => None,
            },
        ),
{
    match opened {
        Ok(decrypted_bytes) => {
            match string_from_utf8(decrypted_bytes) {
                Some(decrypted_id) => {
                    proof {
                        encode_utf8_decode_utf8(decrypted_id@);
                    }
                    DecryptResult::Success {
                        encrypted_id: String::from_str(enc_id),
                        decrypted_id,
                    }
                },
                None => DecryptResult::Error(AppError::EncodingError),
            }
        },
        Err(_) => DecryptResult::Error(AppError::DecryptionError),
    }
}

/// The base64 body of the token `enc_id`: its bytes after the first `PREFIX_LEN`, or
/// `None` where the token is shorter than the prefix.
pub fn token_body(enc_id: &str) -> (body: Option<&[u8]>)
    ensures
        body is None <==> utf8_len(enc_id@) < PREFIX_LEN,
        body matches Some(b) ==> b@ == encode_utf8(enc_id@).subrange(
            PREFIX_LEN as int,
            utf8_len(enc_id@) as int,
        ),
{
    let bytes = enc_id.as_bytes();
    if bytes.len() < PREFIX_LEN {
        None
    } else {
        Some(slice_subrange(bytes, PREFIX_LEN, bytes.len()))
    }
}

/// Decrypts the token `enc_id` under the key of `uuid`.
pub fn perform_decrypt(enc_id: &str, uuid: &str) -> (r: DecryptResult)
    ensures
        r@ == decrypt_outcome(enc_id@, uuid@),
{
    match token_body(enc_id) {
        None => DecryptResult::Error(AppError::FormatError),
        Some(body) => match decode(body) {
            Ok(sealed) => finish_decrypt(enc_id, symmetric_crypt(sealed.as_slice(), uuid, false)),
            Err(_) => DecryptResult::Error(AppError::DecodeError),
        },
    }
}

} // verus!
