use custom_rustdesk::crypto::{
    decode, decrypt, derive_key, encode, encrypt, fits_for_encryption, open, seal,
    symmetric_crypt,
};

const SEED: &str = "550e8400-e29b-41d4-a716-446655440000";
const PLAIN_SEED: &str = "550e8400e29b41d4a716446655440000";

#[test]
fn key_is_the_seed_truncated() {
    // The seed has 36 bytes: the key is its first 32.
    assert_eq!(&derive_key(SEED)[..], &SEED.as_bytes()[..32]);
    assert_eq!(&derive_key(PLAIN_SEED)[..], PLAIN_SEED.as_bytes());
}

#[test]
fn key_is_the_seed_padded_with_zeros() {
    let mut expected = [0u8; 32];
    expected[0] = b'a';
    expected[1] = b'b';
    expected[2] = b'c';
    assert_eq!(derive_key("abc"), expected);
    assert_eq!(derive_key(""), [0u8; 32]);
}

#[test]
fn key_uses_bytes_not_characters() {
    let key = derive_key("é");
    assert_eq!(&key[..3], &[0xc3, 0xa9, 0]);
}

#[test]
fn seeds_with_a_common_prefix_share_a_key() {
    let other = "550e8400-e29b-41d4-a716-44665544ffff";
    assert_eq!(derive_key(SEED), derive_key(other));
    assert_eq!(encrypt(b"alice", SEED), encrypt(b"alice", other));
}

#[test]
fn sealing_gives_the_known_ciphertext() {
    let sealed = symmetric_crypt(b"alice", SEED, true).unwrap();
    assert_eq!(
        sealed,
        vec![
            111, 116, 213, 207, 255, 72, 48, 110, 40, 215, 119, 86, 17, 167, 109, 203, 104, 170,
            95, 95, 10
        ]
    );
}

#[test]
fn sealed_message_is_sixteen_bytes_longer() {
    for len in [0usize, 1, 5, 16, 100, 1000] {
        let data = vec![7u8; len];
        let sealed = symmetric_crypt(&data, SEED, true).unwrap();
        assert_eq!(sealed.len(), len + 16);
    }
}

#[test]
fn opening_gives_the_message_back() {
    let sealed = symmetric_crypt(b"alice", SEED, true).unwrap();
    assert_eq!(symmetric_crypt(&sealed, SEED, false), Ok(b"alice".to_vec()));
}

#[test]
fn opening_fails_on_short_or_changed_input() {
    assert_eq!(symmetric_crypt(b"", SEED, false), Err(()));
    assert_eq!(symmetric_crypt(&[0u8; 15], SEED, false), Err(()));
    assert_eq!(symmetric_crypt(&[0u8; 16], SEED, false), Err(()));
    let mut sealed = symmetric_crypt(b"alice", SEED, true).unwrap();
    sealed[20] ^= 1;
    assert_eq!(symmetric_crypt(&sealed, SEED, false), Err(()));
    let sealed = symmetric_crypt(b"alice", SEED, true).unwrap();
    assert_eq!(symmetric_crypt(&sealed[..20], SEED, false), Err(()));
}

#[test]
fn opening_fails_under_another_key() {
    let sealed = symmetric_crypt(b"alice", SEED, true).unwrap();
    assert_eq!(symmetric_crypt(&sealed, PLAIN_SEED, false), Err(()));
    assert_eq!(
        symmetric_crypt(&sealed, "00000000-0000-0000-0000-000000000000", false),
        Err(())
    );
}

#[test]
fn encrypt_gives_the_known_text() {
    assert_eq!(encrypt(b"alice", SEED), Ok("b3TVz/9IMG4o13dWEadty2iqX18K".to_string()));
    assert_eq!(encrypt(b"", SEED), Ok("5ZTdH40JYRZDRgBCVwIU5A==".to_string()));
    assert_eq!(encrypt(b"alice", PLAIN_SEED), Ok("PXOMLyfpOf5QHoMvNYjy7mJLROoV".to_string()));
}

#[test]
fn encrypt_output_is_padded_base64() {
    for len in 0usize..40 {
        let data = vec![0xa5u8; len];
        let text = encrypt(&data, SEED).unwrap();
        assert_eq!(text.len(), 4 * ((len + 16 + 2) / 3));
        assert!(text
            .chars()
            .all(|c| c.is_ascii_alphanumeric() || c == '+' || c == '/' || c == '='));
    }
}

#[test]
fn decrypt_inverts_encrypt() {
    for data in [&b""[..], b"a", b"alice", &[0xff, 0x00, 0xfe], &[9u8; 300]] {
        let text = encrypt(data, SEED).unwrap();
        assert_eq!(decrypt(text.as_bytes(), SEED), Ok(data.to_vec()));
    }
}

#[test]
fn decrypt_reads_the_known_text() {
    assert_eq!(decrypt(b"b3TVz/9IMG4o13dWEadty2iqX18K", SEED), Ok(b"alice".to_vec()));
    assert_eq!(decrypt(b"5ZTdH40JYRZDRgBCVwIU5A==", SEED), Ok(Vec::new()));
}

#[test]
fn decrypt_fails_on_malformed_text() {
    assert_eq!(decrypt(b"b3TVz/9IMG4o13dWEadty2iqX18", SEED), Err(()));
    assert_eq!(decrypt(b"b3TVz/9IMG4o13dWEadty2iqX18K=", SEED), Err(()));
    assert_eq!(decrypt(b"b3TVz_9IMG4o13dWEadty2iqX18K", SEED), Err(()));
    assert_eq!(decrypt(b"5ZTdH40JYRZDRgBCVwIU5A", SEED), Err(()));
    assert_eq!(decrypt(b" b3TVz/9IMG4o13dWEadty2iqX18K", SEED), Err(()));
}

#[test]
fn decrypt_fails_under_another_key() {
    assert_eq!(decrypt(b"b3TVz/9IMG4o13dWEadty2iqX18K", PLAIN_SEED), Err(()));
    assert_eq!(decrypt(b"PXOMLyfpOf5QHoMvNYjy7mJLROoV", SEED), Err(()));
    assert_eq!(decrypt(b"", SEED), Err(()));
}

#[test]
fn memory_limit() {
    assert!(fits_for_encryption(0));
    assert!(fits_for_encryption(100));
    assert!(fits_for_encryption(1 << 20));
    assert!(!fits_for_encryption(usize::MAX));
    assert!(!fits_for_encryption(isize::MAX as usize));
    assert!(!fits_for_encryption(isize::MAX as usize - 16));
    // The base64 text of n + 16 bytes has 4 * ceil((n + 16) / 3) characters, and must stay
    // under isize::MAX.
    let max = isize::MAX as usize;
    let groups = (max - 1) / 4;
    let largest = groups * 3 - 16;
    assert!(fits_for_encryption(largest));
    assert!(!fits_for_encryption(largest + 1));
}

#[test]
fn encode_gives_the_known_text() {
    assert_eq!(encode(b""), "");
    assert_eq!(encode(b"f"), "Zg==");
    assert_eq!(encode(b"fo"), "Zm8=");
    assert_eq!(encode(b"foo"), "Zm9v");
    assert_eq!(encode(b"foob"), "Zm9vYg==");
    assert_eq!(encode(b"fooba"), "Zm9vYmE=");
    assert_eq!(encode(b"foobar"), "Zm9vYmFy");
    assert_eq!(encode(&[0xfb, 0xff, 0xfe]), "+//+");
}

#[test]
fn decode_reads_the_known_text() {
    assert_eq!(decode(b""), Ok(Vec::new()));
    assert_eq!(decode(b"Zg=="), Ok(b"f".to_vec()));
    assert_eq!(decode(b"Zm8="), Ok(b"fo".to_vec()));
    assert_eq!(decode(b"Zm9v"), Ok(b"foo".to_vec()));
    assert_eq!(decode(b"Zm9vYmFy"), Ok(b"foobar".to_vec()));
    assert_eq!(decode(b"+//+"), Ok(vec![0xfb, 0xff, 0xfe]));
}

#[test]
fn decode_inverts_encode() {
    for len in 0usize..70 {
        let bytes: Vec<u8> = (0..len).map(|i| (i * 37 + len) as u8).collect();
        assert_eq!(decode(encode(&bytes).as_bytes()), Ok(bytes));
    }
}

#[test]
fn decode_rejects_bytes_outside_the_alphabet() {
    assert_eq!(decode(b"Zm9v\n"), Err(()));
    assert_eq!(decode(b" Zm9v"), Err(()));
    assert_eq!(decode(b"Zm9v!"), Err(()));
    assert_eq!(decode(b"-_-_"), Err(()));
    assert_eq!(decode(b"Zm9\0"), Err(()));
    // Bytes of a character outside ASCII.
    assert_eq!(decode(&[0xc3, 0xa9, 0x41, 0x41]), Err(()));
    assert_eq!(decode(&[0x41, 0x41, 0x41, 0xff]), Err(()));
    assert_eq!(decode(&[0x80, 0x80, 0x80, 0x80]), Err(()));
    for b in 0u8..=255 {
        let in_alphabet = b.is_ascii_alphanumeric() || b == b'+' || b == b'/' || b == b'=';
        if !in_alphabet {
            assert_eq!(decode(&[b'A', b'A', b'A', b]), Err(()), "byte {}", b);
            assert_eq!(decode(&[b, b'A', b'A', b'A']), Err(()), "byte {}", b);
        }
    }
}

#[test]
fn decode_rejects_malformed_padding() {
    assert_eq!(decode(b"Z"), Err(()));
    assert_eq!(decode(b"Zg"), Err(()));
    assert_eq!(decode(b"Zg="), Err(()));
    assert_eq!(decode(b"Zg==="), Err(()));
    assert_eq!(decode(b"Zm8"), Err(()));
    assert_eq!(decode(b"Zm8=="), Err(()));
    assert_eq!(decode(b"Zm9v="), Err(()));
    assert_eq!(decode(b"Zg==Zg=="), Err(()));
    assert_eq!(decode(b"===="), Err(()));
    // Bits left over after the last whole byte must be zero.
    assert_eq!(decode(b"Zh=="), Err(()));
}

#[test]
fn seal_and_open_under_a_key() {
    let key = derive_key(SEED);
    let sealed = seal(b"alice", &key);
    assert_eq!(sealed, symmetric_crypt(b"alice", SEED, true).unwrap());
    assert_eq!(sealed.len(), 5 + 16);
    assert_ne!(&sealed[16..], b"alice");
    assert_eq!(open(&sealed, &key), Ok(b"alice".to_vec()));
    assert_eq!(open(&sealed, &[0u8; 32]), Err(()));
    assert_eq!(open(b"alice", &key), Err(()));
    let zero = seal(b"", &[0u8; 32]);
    assert_eq!(zero.len(), 16);
    assert_eq!(open(&zero, &[0u8; 32]), Ok(Vec::new()));
}

#[test]
fn sealing_is_repeatable() {
    let key = derive_key(SEED);
    assert_eq!(seal(b"alice", &key), seal(b"alice", &key));
    assert_ne!(seal(b"alice", &key), seal(b"alicf", &key));
    assert_ne!(seal(b"alice", &key), seal(b"alice", &derive_key(PLAIN_SEED)));
}
