//! Key derivation, the sealing transform and the text encoding of its output.

use vstd::prelude::*;
use vstd::string::*;
use vstd::utf8::*;
use crate::sodium::{
    base64_decode, base64_decoded, base64_encode, base64_encoded, base64_len, secretbox_open,
    secretbox_opened, secretbox_seal, secretbox_sealed, KEY_LEN, MAC_LEN, NONCE_LEN,
};
use crate::validation::is_base64_char;

verus! {

/// The nonce of every operation: `NONCE_LEN` zero bytes.
pub open spec fn zero_nonce() -> Seq<u8> {
    Seq::new(NONCE_LEN as nat, |i: int| 0u8)
}

/// The key that the bytes of a seed give: its first `KEY_LEN` bytes, with zero bytes after
/// them where the seed is shorter.
pub open spec fn derived_key(seed: Seq<u8>) -> Seq<u8> {
    Seq::new(
        KEY_LEN as nat,
        |i: int|
            if i < seed.len() {
                seed[i]
            } else {
                0u8
            },
    )
}

/// The ciphertext of `data` under `key` and the zero nonce.
pub open spec fn sealed_with(data: Seq<u8>, key: Seq<u8>) -> Seq<u8> {
    secretbox_sealed(data, zero_nonce(), key)
}

/// The message in `sealed` under `key` and the zero nonce, or `None` where authentication
/// fails.
pub open spec fn opened_with(sealed: Seq<u8>, key: Seq<u8>) -> Option<Seq<u8>> {
    secretbox_opened(sealed, zero_nonce(), key)
}

/// The ciphertext of `data` under the key of `seed`.
pub open spec fn sealed_under(data: Seq<u8>, seed: Seq<char>) -> Seq<u8> {
    sealed_with(data, derived_key(encode_utf8(seed)))
}

/// The message in `sealed` under the key of `seed`, or `None` where authentication fails.
pub open spec fn opened_under(sealed: Seq<u8>, seed: Seq<char>) -> Option<Seq<u8>> {
    opened_with(sealed, derived_key(encode_utf8(seed)))
}

/// True for the bytes of the base64 alphabet, padding included.
pub open spec fn is_base64_byte(b: u8) -> bool {
    (0x41 <= b && b <= 0x5A) || (0x61 <= b && b <= 0x7A) || (0x30 <= b && b <= 0x39) || b == 0x2B
        || b == 0x2F || b == 0x3D
}

/// True where every byte of `text` is in the base64 alphabet.
pub open spec fn is_base64_text(text: Seq<u8>) -> bool {
    forall|i: int| 0 <= i < text.len() ==> is_base64_byte(#[trigger] text[i])
}

/// The bytes that `text` stands for: `None` where it holds a byte outside the base64
/// alphabet, or is malformed base64.
pub open spec fn decoded_text(text: Seq<u8>) -> Option<Seq<u8>> {
    if is_base64_text(text) {
        base64_decoded(text)
    } else {
        None
    }
}

/// The token body of `data` under `seed`: the base64 text of the ciphertext.
pub open spec fn encrypted_text(data: Seq<u8>, seed: Seq<char>) -> Seq<char> {
    base64_encoded(sealed_under(data, seed))
}

/// The message that the base64 text `text` holds under `seed`, or `None` where the text is
/// malformed or authentication fails.
pub open spec fn decrypted_bytes(text: Seq<u8>, seed: Seq<char>) -> Option<Seq<u8>> {
    match decoded_text(text) {
        Some(sealed) => opened_under(sealed, seed),
        None => None,
    }
}

/// True where a message of `n` bytes can be sealed: the ciphertext fits in memory.
pub open spec fn can_seal(n: nat) -> bool {
    n + MAC_LEN <= isize::MAX
}

/// True where `n` bytes can be encoded: the text and its terminator fit in memory.
pub open spec fn can_encode(n: nat) -> bool {
    base64_len(n) < isize::MAX
}

/// True where a message of `n` bytes can be sealed and the ciphertext encoded.
pub open spec fn can_encrypt(n: nat) -> bool {
    can_seal(n) && can_encode(n + MAC_LEN as nat)
}

/// Text in the base64 alphabet encodes to bytes in the base64 alphabet.
pub proof fn lemma_base64_chars_are_base64_bytes(text: Seq<char>)
    requires
        forall|i: int| 0 <= i < text.len() ==> is_base64_char(#[trigger] text[i]),
    ensures
        is_base64_text(encode_utf8(text)),
        encode_utf8(text).len() == text.len(),
{
    assert(is_ascii_chars(text)) by {
        assert forall|i: int| 0 <= i < text.len() implies '\0' <= #[trigger] text[i]
            <= '\u{7f}' by {
            assert(is_base64_char(text[i]));
        }
    }
    is_ascii_chars_encode_utf8(text);
    let bytes = encode_utf8(text);
    assert forall|i: int| 0 <= i < bytes.len() implies is_base64_byte(#[trigger] bytes[i]) by {
        assert(is_base64_char(text[i]));
        assert(text[i] as u8 == bytes[i]);
    }
}

/// Derives the key of `seed` by truncating or zero-padding its bytes to `KEY_LEN`.
pub fn derive_key(seed: &str) -> (key: [u8; 32])
    ensures
        key@ == derived_key(encode_utf8(seed@)),
{
    let bytes = seed.as_bytes();
    let mut key = [0u8; 32];
    let mut i: usize = 0;
    while i < KEY_LEN && i < bytes.len()
        invariant
            i <= KEY_LEN,
            i <= bytes@.len(),
            key@.len() == KEY_LEN,
            bytes@ == encode_utf8(seed@),
            forall|j: int| 0 <= j < i ==> key@[j] == bytes@[j],
            forall|j: int| i <= j < KEY_LEN ==> key@[j] == 0u8,
        decreases KEY_LEN - i,
    {
        key[i] = bytes[i];
        i = i + 1;
    }
    proof {
        assert(key@ =~= derived_key(encode_utf8(seed@)));
    }
    key
}

/// Encrypts and authenticates `plaintext` under `key` and the zero nonce. Opening the
/// result under the same key gives `plaintext` back.
pub fn seal(plaintext: &[u8], key: &[u8; 32]) -> (sealed: Vec<u8>)
    requires
        can_seal(plaintext@.len()),
    ensures
        sealed@ == sealed_with(plaintext@, key@),
        sealed@.len() == plaintext@.len() + MAC_LEN,
        opened_with(sealed@, key@) == Some(plaintext@),
{
    let nonce = [0u8; 24];
    proof {
        assert(nonce@ =~= zero_nonce());
    }
    secretbox_seal(plaintext, &nonce, key)
}

/// Verifies and decrypts `ciphertext` under `key` and the zero nonce. Fails where the
/// ciphertext is not a sealed message for this key; no bytes are returned then.
pub fn open(ciphertext: &[u8], key: &[u8; 32]) -> (opened: Result<Vec<u8>, ()>)
    ensures
        match opened {
            Ok(message) => opened_with(ciphertext@, key@) == Some(message@)
                && message@.len() + MAC_LEN == ciphertext@.len(),
            Err(_) => opened_with(ciphertext@, key@) is None,
        },
{
    let nonce = [0u8; 24];
    proof {
        assert(nonce@ =~= zero_nonce());
    }
    secretbox_open(ciphertext, &nonce, key)
}

/// Writes `sealed` as padded base64 text. Decoding the text gives `sealed` back.
pub fn encode(sealed: &[u8]) -> (text: String)
    requires
        can_encode(sealed@.len()),
    ensures
        text@ == base64_encoded(sealed@),
        text@.len() == base64_len(sealed@.len()),
        forall|i: int| 0 <= i < text@.len() ==> is_base64_char(#[trigger] text@[i]),
        decoded_text(encode_utf8(text@)) == Some(sealed@),
{
    let text = base64_encode(sealed);
    proof {
        lemma_base64_chars_are_base64_bytes(text@);
    }
    text
}

fn holds_only_base64(text: &[u8]) -> (r: bool)
    ensures
        r == is_base64_text(text@),
{
    let mut i: usize = 0;
    while i < text.len()
        invariant
            i <= text@.len(),
            forall|j: int| 0 <= j < i ==> is_base64_byte(#[trigger] text@[j]),
        decreases text@.len() - i,
    {
        let b = text[i];
        let ok = (0x41 <= b && b <= 0x5A) || (0x61 <= b && b <= 0x7A) || (0x30 <= b && b <= 0x39)
            || b == 0x2B || b == 0x2F || b == 0x3D;
        if !ok {
            return false;
        }
        i = i + 1;
    }
    true
}

/// Reads padded base64 text. Fails where `text` holds a byte outside the base64 alphabet,
/// or is malformed base64.
pub fn decode(text: &[u8]) -> (r: Result<Vec<u8>, ()>)
    ensures
        match r {
            Ok(bytes) => decoded_text(text@) == Some(bytes@),
            Err(_) => decoded_text(text@) is None,
        },
        !is_base64_text(text@) ==> r is Err,
{
    if !holds_only_base64(text) {
        return Err(());
    }
    base64_decode(text)
}

/// Seals `data` (where `encrypt` is set) or opens it, under the key of `uuid` and the zero
/// nonce. Sealing always succeeds; opening fails where authentication does.
pub fn symmetric_crypt(data: &[u8], uuid: &str, encrypt: bool) -> (r: Result<Vec<u8>, ()>)
    requires
        encrypt ==> can_seal(data@.len()),
    ensures
        encrypt ==> (r matches Ok(sealed) && sealed@ == sealed_under(data@, uuid@)
            && sealed@.len() == data@.len() + MAC_LEN
            && opened_under(sealed@, uuid@) == Some(data@)),
        !encrypt ==> match r {
            Ok(message) => opened_under(data@, uuid@) == Some(message@)
                && message@.len() + MAC_LEN == data@.len(),
            Err(_) => opened_under(data@, uuid@) is None,
        },
{
    let key = derive_key(uuid);
    if encrypt {
        Ok(seal(data, &key))
    } else {
        open(data, &key)
    }
}

/// Seals `v` under the key of `uuid` and encodes the ciphertext as base64 text.
pub fn encrypt(v: &[u8], uuid: &str) -> (r: Result<String, ()>)
    requires
        can_encrypt(v@.len()),
    ensures
        r matches Ok(text) && text@ == encrypted_text(v@, uuid@)
            && text@.len() == base64_len(v@.len() + MAC_LEN as nat)
            && decrypted_bytes(encode_utf8(text@), uuid@) == Some(v@)
            && forall|i: int| 0 <= i < text@.len() ==> is_base64_char(#[trigger] text@[i]),
{
    match symmetric_crypt(v, uuid, true) {
        Ok(sealed) => Ok(encode(sealed.as_slice())),
        Err(e) => Err(e),
    }
}

/// Decodes the base64 text `v` and opens the ciphertext under the key of `uuid`.
pub fn decrypt(v: &[u8], uuid: &str) -> (r: Result<Vec<u8>, ()>)
    ensures
        match r {
            Ok(message) => decrypted_bytes(v@, uuid@) == Some(message@),
            Err(_) => decrypted_bytes(v@, uuid@) is None,
        },
{
    match decode(v) {
        Ok(sealed) => symmetric_crypt(sealed.as_slice(), uuid, false),
        Err(e) => Err(e),
    }
}

/// Tests whether a message of `len` bytes can be sealed and encoded.
pub fn fits_for_encryption(len: usize) -> (r: bool)
    ensures
        r == can_encrypt(len as nat),
{
    let max: usize = isize::MAX as usize;
    if len > max - MAC_LEN {
        return false;
    }
    let groups: usize = (len + MAC_LEN + 2) / 3;
    groups <= (max - 1) / 4
}

/// Seeds that agree on their first `KEY_LEN` bytes derive the same key.
pub proof fn lemma_key_depends_on_prefix(a: Seq<u8>, b: Seq<u8>)
    requires
        a.len() >= KEY_LEN,
        b.len() >= KEY_LEN,
        a.subrange(0, KEY_LEN as int) == b.subrange(0, KEY_LEN as int),
    ensures
        derived_key(a) == derived_key(b),
{
    assert forall|i: int| 0 <= i < KEY_LEN implies a[i] == b[i] by {
        assert(a[i] == a.subrange(0, KEY_LEN as int)[i]);
        assert(b[i] == b.subrange(0, KEY_LEN as int)[i]);
    }
    assert(derived_key(a) =~= derived_key(b));
}

} // verus!
