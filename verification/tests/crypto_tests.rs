use base64::Engine;
use hhpos_license::crypto::{
    derive_file_key, embedded_public_key, parse_public_key_file, public_key_of,
    get_pub_key_bytes, sign_payload, verify_signature, xor8, xor_crypt, CHUNK_MASK, PUB_KEY_0,
    PUB_KEY_1, PUB_KEY_2, PUB_KEY_3,
};

const SECRET: [u8; 32] = [7u8; 32];

const PUBLIC_OF_SECRET: [u8; 32] = [
    234, 74, 108, 99, 226, 156, 82, 10, 190, 245, 80, 123, 19, 46, 197, 249, 149, 71, 118, 174,
    190, 190, 123, 146, 66, 30, 234, 105, 20, 70, 210, 44,
];

fn invalid_point() -> [u8; 32] {
    for b in 0u8..=255 {
        let k = [b; 32];
        if ed25519_dalek::VerifyingKey::from_bytes(&k).is_err() {
            return k;
        }
    }
    panic!("every candidate decompressed");
}

#[test]
fn xor8_combines_bytewise() {
    let a = [0x00, 0xFF, 0x0F, 0xF0, 0x12, 0x34, 0x56, 0x78];
    let b = [0xFF, 0xFF, 0xF0, 0xF0, 0x21, 0x43, 0x65, 0x87];
    assert_eq!(xor8(a, b), [0xFF, 0x00, 0xFF, 0x00, 0x33, 0x77, 0x33, 0xFF]);
    assert_eq!(xor8(xor8(a, CHUNK_MASK), CHUNK_MASK), a);
}

#[test]
fn embedded_public_key_is_the_unmasked_chunks() {
    let key = embedded_public_key();
    let mut expected = Vec::new();
    expected.extend_from_slice(&PUB_KEY_0);
    expected.extend_from_slice(&PUB_KEY_1);
    expected.extend_from_slice(&PUB_KEY_2);
    expected.extend_from_slice(&PUB_KEY_3);
    assert_eq!(key.to_vec(), expected);
    assert_eq!(&key[..8], &[0xF5, 0x47, 0x27, 0xB4, 0xAB, 0xFE, 0x3D, 0x63]);
}

#[test]
fn get_pub_key_bytes_prefers_external() {
    let external = [9u8; 32];
    assert_eq!(get_pub_key_bytes(Some(external)), external);
    assert_eq!(get_pub_key_bytes(None), embedded_public_key());
}

#[test]
fn parse_public_key_file_accepts_raw_and_base64() {
    assert_eq!(parse_public_key_file(&PUBLIC_OF_SECRET), Some(PUBLIC_OF_SECRET));
    let text = b"  6kpsY+KcUgq+9VB7Ey7F+ZVHdq6+vnuSQh7qaRRG0iw=\r\n";
    assert_eq!(parse_public_key_file(text), Some(PUBLIC_OF_SECRET));
}

#[test]
fn parse_public_key_file_rejects_bad_contents() {
    assert_eq!(parse_public_key_file(&[1u8; 31]), None);
    assert_eq!(parse_public_key_file(b"not base64 at all!"), None);
    // valid Base64 of 3 bytes: wrong length
    assert_eq!(parse_public_key_file(b"AAAA"), None);
    // invalid UTF-8
    assert_eq!(parse_public_key_file(&[0xFF, 0xFE, 0x41]), None);
}

#[test]
fn public_key_of_matches_dalek() {
    assert_eq!(public_key_of(&SECRET), PUBLIC_OF_SECRET);
    let dalek = ed25519_dalek::SigningKey::from_bytes(&SECRET).verifying_key().to_bytes();
    assert_eq!(public_key_of(&SECRET), dalek);
}

#[test]
fn sign_payload_gives_known_signature() {
    let sig = sign_payload(&SECRET, "HHPOS|ABCD-1234-EF56|0|LIFETIME");
    assert_eq!(
        sig,
        "TfciY5w/JjBphp2hEQ4zaOg/ANFEkyt0KUgZySTULu2tx73dvL9QbAWYffBN2LWHewIxiSVkyPqlQKUl3opNDQ=="
    );
}

#[test]
fn verify_signature_accepts_a_valid_signature() {
    let payload = "HHPOS|ABCD-1234-EF56|0|LIFETIME";
    let sig = sign_payload(&SECRET, payload);
    assert!(verify_signature(&PUBLIC_OF_SECRET, payload, &sig));
}

#[test]
fn verify_signature_rejects_tampering() {
    let payload = "HHPOS|ABCD-1234-EF56|0|LIFETIME";
    let sig = sign_payload(&SECRET, payload);
    assert!(!verify_signature(&PUBLIC_OF_SECRET, "HHPOS|ABCD-1234-EF56|0|PRO", &sig));
    // wrong key: the embedded one
    assert!(!verify_signature(&embedded_public_key(), payload, &sig));
    // not Base64
    assert!(!verify_signature(&PUBLIC_OF_SECRET, payload, "***"));
    // Base64 of the wrong length
    assert!(!verify_signature(&PUBLIC_OF_SECRET, payload, "AAAA"));
    // a key that is not a curve point
    assert!(!verify_signature(&invalid_point(), payload, &sig));
}

#[test]
fn derive_file_key_is_sha256_of_id_and_salt() {
    let key = derive_file_key("ABCD-1234-EF56");
    assert_eq!(
        key,
        [
            7, 1, 201, 22, 49, 50, 146, 240, 109, 17, 175, 59, 181, 0, 204, 70, 70, 231, 105,
            247, 77, 124, 114, 233, 232, 95, 138, 162, 232, 15, 97, 89
        ]
    );
    assert_ne!(derive_file_key("ABCD-1234-EF57"), key);
}

#[test]
fn xor_crypt_uses_the_key_cyclically() {
    let mut key = [0u8; 32];
    for (i, k) in key.iter_mut().enumerate() {
        *k = i as u8;
    }
    let data: Vec<u8> = (0..40u8).map(|_| 0xFF).collect();
    let out = xor_crypt(&data, &key);
    assert_eq!(out.len(), 40);
    assert_eq!(out[0], 0xFF);
    assert_eq!(out[1], 0xFE);
    assert_eq!(out[31], 0xFF ^ 31);
    assert_eq!(out[32], 0xFF);
    assert_eq!(out[39], 0xFF ^ 7);
    assert!(xor_crypt(&[], &key).is_empty());
}

#[test]
fn xor_crypt_twice_restores_the_data() {
    let key = derive_file_key("MACHINE");
    let data = b"{\"v\":1,\"machine_id\":\"MACHINE\"}".to_vec();
    let once = xor_crypt(&data, &key);
    assert_ne!(once, data);
    assert_eq!(xor_crypt(&once, &key), data);
}

#[test]
fn external_key_is_the_first_usable_file() {
    let text = base64::engine::general_purpose::STANDARD.encode(PUBLIC_OF_SECRET);
    let other = [9u8; 32];
    assert_eq!(hhpos_license::crypto::try_load_external_pub_key(&vec![]), None);
    assert_eq!(
        hhpos_license::crypto::try_load_external_pub_key(&vec![None, Some(b"junk".to_vec()), None]),
        None
    );
    assert_eq!(
        hhpos_license::crypto::try_load_external_pub_key(&vec![
            None,
            Some(format!("  {text}\n").into_bytes()),
            Some(other.to_vec()),
        ]),
        Some(PUBLIC_OF_SECRET)
    );
    assert_eq!(
        hhpos_license::crypto::try_load_external_pub_key(&vec![
            Some(vec![1u8; 31]),
            Some(other.to_vec()),
            Some(text.into_bytes()),
        ]),
        Some(other)
    );
}
