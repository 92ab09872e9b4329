//! The calls into libsodium, through the `sodiumoxide` crate.
//!
//! Nothing here is proved: each function states what the library relies on, and the names
//! below stand for what libsodium computes.

use vstd::prelude::*;
use vstd::utf8::encode_utf8;
use sodiumoxide::base64;
use sodiumoxide::crypto::secretbox;
use crate::validation::is_base64_char;

verus! {

/// Number of bytes in a secret key.
pub const KEY_LEN: usize = 32;

/// Number of bytes in a nonce.
pub const NONCE_LEN: usize = 24;

/// Number of bytes by which a sealed message is longer than the message.
pub const MAC_LEN: usize = 16;

/// The ciphertext that XSalsa20-Poly1305 gives for `message` under `nonce` and `key`.
pub uninterp spec fn secretbox_sealed(message: Seq<u8>, nonce: Seq<u8>, key: Seq<u8>) -> Seq<u8>;

/// The message that XSalsa20-Poly1305 recovers from `sealed` under `nonce` and `key`, or
/// `None` where the authenticator does not match.
pub uninterp spec fn secretbox_opened(sealed: Seq<u8>, nonce: Seq<u8>, key: Seq<u8>) -> Option<
    Seq<u8>,
>;

/// The padded base64 text of `bytes`, in the alphabet with `+` and `/`.
pub uninterp spec fn base64_encoded(bytes: Seq<u8>) -> Seq<char>;

/// The bytes that the padded base64 text `text` stands for, or `None` where it is malformed.
pub uninterp spec fn base64_decoded(text: Seq<u8>) -> Option<Seq<u8>>;

/// Length of the padded base64 text of `n` bytes.
pub open spec fn base64_len(n: nat) -> nat {
    4 * ((n + 2) / 3)
}

/// `sodiumoxide::crypto::secretbox::seal`.
///
/// Trusted: the result is the ciphertext named by [`secretbox_sealed`], it is `MAC_LEN` bytes
/// longer than the message, and opening it under the same nonce and key gives the message
/// back. The bound keeps the length of the ciphertext within what a vector can hold.
#[verifier::external_body]
pub(crate) fn secretbox_seal(message: &[u8], nonce: &[u8; 24], key: &[u8; 32]) -> (sealed: Vec<u8>)
    requires
        message@.len() + MAC_LEN <= isize::MAX,
    ensures
        sealed@ == secretbox_sealed(message@, nonce@, key@),
        sealed@.len() == message@.len() + MAC_LEN,
        secretbox_opened(sealed@, nonce@, key@) == Some(message@),
{
    secretbox::seal(message, &secretbox::Nonce(*nonce), &secretbox::Key(*key))
}

/// `sodiumoxide::crypto::secretbox::open`.
///
/// Trusted: the result is what [`secretbox_opened`] names, an error standing for `None`; a
/// recovered message is `MAC_LEN` bytes shorter than the ciphertext.
#[verifier::external_body]
pub(crate) fn secretbox_open(sealed: &[u8], nonce: &[u8; 24], key: &[u8; 32]) -> (opened: Result<
    Vec<u8>,
    (),
>)
    ensures
        match opened {
            Ok(message) => secretbox_opened(sealed@, nonce@, key@) == Some(message@)
                && message@.len() + MAC_LEN == sealed@.len(),
            Err(_) => secretbox_opened(sealed@, nonce@, key@) is None,
        },
{
    secretbox::open(sealed, &secretbox::Nonce(*nonce), &secretbox::Key(*key))
}

/// `sodiumoxide::base64::encode` with `Variant::Original`.
///
/// Trusted: the result is the text named by [`base64_encoded`], it has four characters for
/// every three bytes begun, all of them in the base64 alphabet, and decoding its bytes gives
/// `bytes` back. The bound keeps the text and its terminator within what a vector can hold.
#[verifier::external_body]
pub(crate) fn base64_encode(bytes: &[u8]) -> (text: String)
    requires
        base64_len(bytes@.len()) < isize::MAX,
    ensures
        text@ == base64_encoded(bytes@),
        text@.len() == base64_len(bytes@.len()),
        forall|i: int| 0 <= i < text@.len() ==> is_base64_char(#[trigger] text@[i]),
        base64_decoded(encode_utf8(text@)) == Some(bytes@),
{
    base64::encode(bytes, base64::Variant::Original)
}

/// `sodiumoxide::base64::decode` with `Variant::Original`.
///
/// Trusted: the result is what [`base64_decoded`] names, an error standing for `None`.
#[verifier::external_body]
pub(crate) fn base64_decode(text: &[u8]) -> (bytes: Result<Vec<u8>, ()>)
    ensures
        match bytes {
            Ok(b) => base64_decoded(text@) == Some(b@),
            Err(_) => base64_decoded(text@) is None,
        },
{
    base64::decode(text, base64::Variant::Original)
}

} // verus!
