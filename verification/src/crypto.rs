//! Cryptographic building blocks: the embedded Ed25519 public key, signature
//! checking over Base64 signatures, the per-machine file key and the XOR
//! stream cipher that protects the license files.
use vstd::prelude::*;
use vstd::utf8::*;
use base64::Engine;
use ed25519_dalek::Signer;
use ed25519_dalek::Verifier;
use sha2::Digest;

use crate::text::{chars_of, string_of, trim, trim_chars, utf8_bytes, utf8_decode};

verus! {

// ---------------------------------------------------------------------------
// Outside types
// ---------------------------------------------------------------------------

/// The error of `ed25519_dalek` key parsing and signature checking.
#[verifier::external_type_specification]
#[verifier::external_body]
pub struct ExSignatureError(ed25519_dalek::SignatureError);

/// The error of Base64 decoding.
#[verifier::external_type_specification]
#[verifier::external_body]
pub struct ExDecodeError(base64::DecodeError);

// ---------------------------------------------------------------------------
// Names for what the outside crates compute
// ---------------------------------------------------------------------------

/// The SHA-256 digest of `data`.
pub uninterp spec fn sha256_digest(data: Seq<u8>) -> Seq<u8>;

/// What standard-alphabet, padded Base64 decoding gives for `text`.
pub uninterp spec fn base64_decoded(text: Seq<char>) -> Option<Seq<u8>>;

/// The standard-alphabet, padded Base64 encoding of `bytes`.
pub uninterp spec fn base64_encoded(bytes: Seq<u8>) -> Seq<char>;

/// Whether `public_key` is a valid Ed25519 point encoding.
pub uninterp spec fn ed25519_key_valid(public_key: Seq<u8>) -> bool;

/// Whether `public_key` is valid and `signature` is a valid Ed25519
/// signature of `message` under it.
pub uninterp spec fn ed25519_accepts(public_key: Seq<u8>, message: Seq<u8>, signature: Seq<u8>) -> bool;

/// The Ed25519 public key of a 32-byte secret key.
pub uninterp spec fn ed25519_public_of(secret: Seq<u8>) -> Seq<u8>;

/// The Ed25519 signature of `message` under a 32-byte secret key.
pub uninterp spec fn ed25519_signature_of(secret: Seq<u8>, message: Seq<u8>) -> Seq<u8>;

/// A character of the standard Base64 alphabet, or the padding `=`.
pub open spec fn is_base64_char(c: char) -> bool {
    ||| ('A' <= c && c <= 'Z')
    ||| ('a' <= c && c <= 'z')
    ||| ('0' <= c && c <= '9')
    ||| c == '+'
    ||| c == '/'
    ||| c == '='
}

// ---------------------------------------------------------------------------
// Trusted calls
// ---------------------------------------------------------------------------

/// `Sha256::digest` of `sha2`: the result is the named SHA-256 digest of the input.
#[verifier::external_body]
pub(crate) fn sha256(data: &[u8]) -> (res: [u8; 32])
    ensures
        res@ == sha256_digest(data@),
{
    sha2::Sha256::digest(data).into()
}

/// `Engine::decode` of `base64` with the `STANDARD` engine. Claims only that the
/// outcome is the named decoding of the text: `Ok` exactly when it has one.
#[verifier::external_body]
pub(crate) fn base64_decode(text: &str) -> (res: Result<Vec<u8>, base64::DecodeError>)
    ensures
        res is Ok <==> base64_decoded(text@) is Some,
        res matches Ok(v) ==> base64_decoded(text@) == Some(v@),
{
    base64::engine::general_purpose::STANDARD.decode(text)
}

/// `Engine::encode` of `base64` with the `STANDARD` engine, on a signature.
/// Claims that the result is the named encoding, that it uses only the
/// standard alphabet and `=`, and that decoding it gives the input back.
#[verifier::external_body]
pub(crate) fn base64_encode(bytes: &[u8; 64]) -> (res: String)
    ensures
        res@ == base64_encoded(bytes@),
        forall|i: int| 0 <= i < res@.len() ==> is_base64_char(#[trigger] res@[i]),
        base64_decoded(res@) == Some(bytes@),
{
    base64::engine::general_purpose::STANDARD.encode(bytes)
}

/// `VerifyingKey::from_bytes` of `ed25519_dalek`: `Ok` exactly when the bytes
/// encode a valid point.
#[verifier::external_body]
pub(crate) fn ed25519_check_key(public_key: &[u8; 32]) -> (res: Result<(), ed25519_dalek::SignatureError>)
    ensures
        res is Ok <==> ed25519_key_valid(public_key@),
{
    ed25519_dalek::VerifyingKey::from_bytes(public_key).map(|_| ())
}

/// `Verifier::verify` of `ed25519_dalek::VerifyingKey`, on the key parsed from
/// `public_key` and the signature read from `signature`: `Ok` exactly when the
/// named check accepts, which needs a valid key.
#[verifier::external_body]
pub(crate) fn ed25519_verify(public_key: &[u8; 32], message: &[u8], signature: &[u8; 64]) -> (res:
    Result<(), ed25519_dalek::SignatureError>)
    ensures
        res is Ok <==> ed25519_accepts(public_key@, message@, signature@),
        res is Ok ==> ed25519_key_valid(public_key@),
{
    match ed25519_dalek::VerifyingKey::from_bytes(public_key) {
        Ok(key) => key.verify(message, &ed25519_dalek::Signature::from_bytes(signature)),
        Err(e) => Err(e),
    }
}

/// `Signer::sign` of `ed25519_dalek::SigningKey` built from `secret`. Claims that
/// the result is the named signature and, as for any Ed25519 signature, that
/// it verifies under the public key of the same secret.
#[verifier::external_body]
pub(crate) fn ed25519_sign(secret: &[u8; 32], message: &[u8]) -> (res: [u8; 64])
    ensures
        res@ == ed25519_signature_of(secret@, message@),
        ed25519_accepts(ed25519_public_of(secret@), message@, res@),
{
    ed25519_dalek::SigningKey::from_bytes(secret).sign(message).to_bytes()
}

/// `SigningKey::verifying_key` of `ed25519_dalek`, as bytes: the named public key,
/// which is a valid point.
#[verifier::external_body]
pub(crate) fn ed25519_public(secret: &[u8; 32]) -> (res: [u8; 32])
    ensures
        res@ == ed25519_public_of(secret@),
        ed25519_key_valid(res@),
{
    ed25519_dalek::SigningKey::from_bytes(secret).verifying_key().to_bytes()
}

/// `SigningKey::generate` of `ed25519_dalek`, drawing from the operating
/// system's random source `rand::rngs::OsRng`, as the 32 secret-key bytes.
/// Nothing is claimed of the bytes: they come from chance. (`OsRng` panics
/// if the operating system cannot supply random bytes.)
#[verifier::external_body]
pub(crate) fn random_secret_key() -> (res: [u8; 32]) {
    ed25519_dalek::SigningKey::generate(&mut rand::rngs::OsRng).to_bytes()
}

/// The `Display` text of an `ed25519_dalek::SignatureError`, as `to_string`
/// gives it. Nothing is claimed of the text: the error value is opaque here.
#[verifier::external_body]
pub(crate) fn signature_error_text(e: &ed25519_dalek::SignatureError) -> String {
    e.to_string()
}

/// The `Display` text of a `base64::DecodeError`, as `to_string` gives it.
/// Nothing is claimed of the text: the error value is opaque here.
#[verifier::external_body]
pub(crate) fn decode_error_text(e: &base64::DecodeError) -> String {
    e.to_string()
}

// ---------------------------------------------------------------------------
// Fixed-size byte arrays
// ---------------------------------------------------------------------------

/// Copies a 32-byte slice into an array.
pub fn to_array_32(v: &[u8]) -> (res: [u8; 32])
    requires
        v@.len() == 32,
    ensures
        res@ == v@,
{
    let mut out = [0u8; 32];
    for i in 0..32
        invariant
            v@.len() == 32,
            forall|j: int| 0 <= j < i ==> out@[j] == v@[j],
    {
        out[i] = v[i];
    }
    assert(out@ =~= v@);
    out
}

/// Copies a 64-byte slice into an array.
pub fn to_array_64(v: &[u8]) -> (res: [u8; 64])
    requires
        v@.len() == 64,
    ensures
        res@ == v@,
{
    let mut out = [0u8; 64];
    for i in 0..64
        invariant
            v@.len() == 64,
            forall|j: int| 0 <= j < i ==> out@[j] == v@[j],
    {
        out[i] = v[i];
    }
    assert(out@ =~= v@);
    out
}

// ---------------------------------------------------------------------------
// Embedded public key
// ---------------------------------------------------------------------------

/// Mask applied to each 8-byte chunk of the embedded public key.
pub const CHUNK_MASK: [u8; 8] = [0xA3, 0x7F, 0x12, 0xE8, 0x5C, 0x94, 0x2B, 0x66];

/// The embedded public key, bytes 0..8.
pub const PUB_KEY_0: [u8; 8] = [0xF5, 0x47, 0x27, 0xB4, 0xAB, 0xFE, 0x3D, 0x63];

/// The embedded public key, bytes 8..16.
pub const PUB_KEY_1: [u8; 8] = [0xEB, 0x88, 0x5F, 0xDB, 0x34, 0x59, 0x07, 0x0C];

/// The embedded public key, bytes 16..24.
pub const PUB_KEY_2: [u8; 8] = [0x62, 0x98, 0x99, 0x37, 0x2C, 0x53, 0x60, 0xE7];

/// The embedded public key, bytes 24..32.
pub const PUB_KEY_3: [u8; 8] = [0x0B, 0x8B, 0x93, 0x85, 0xE5, 0x69, 0x4A, 0xF8];

/// The 32 bytes of the embedded public key.
pub open spec fn embedded_key_bytes() -> Seq<u8> {
    PUB_KEY_0@ + PUB_KEY_1@ + PUB_KEY_2@ + PUB_KEY_3@
}

/// Byte-wise XOR of two 8-byte chunks.
pub fn xor8(a: [u8; 8], b: [u8; 8]) -> (res: [u8; 8])
    ensures
        forall|i: int| 0 <= i < 8 ==> #[trigger] res@[i] == a@[i] ^ b@[i],
{
    let mut out = [0u8; 8];
    for i in 0..8
        invariant
            forall|j: int| 0 <= j < i ==> out@[j] == a@[j] ^ b@[j],
    {
        out[i] = a[i] ^ b[i];
    }
    out
}

/// Stores the unmasked bytes of the masked chunk `masked` at `out[at..at + 8]`.
fn unmask_chunk_into(out: &mut [u8; 32], at: usize, masked: [u8; 8])
    requires
        at + 8 <= 32,
    ensures
        forall|j: int| 0 <= j < 32 && !(at <= j < at + 8) ==> final(out)@[j] == old(out)@[j],
        forall|j: int| 0 <= j < 8 ==> #[trigger] final(out)@[at + j] == masked@[j] ^ CHUNK_MASK@[j],
{
    for i in 0..8
        invariant
            at + 8 <= 32,
            forall|j: int| 0 <= j < 32 && !(at <= j < at + i) ==> out@[j] == old(out)@[j],
            forall|j: int| 0 <= j < i ==> #[trigger] out@[at + j] == masked@[j] ^ CHUNK_MASK@[j],
    {
        out[at + i] = masked[i] ^ CHUNK_MASK[i];
    }
}

proof fn lemma_xor_twice(a: u8, m: u8)
    ensures
        (a ^ m) ^ m == a,
{
    assert((a ^ m) ^ m == a) by (bit_vector);
}

/// The embedded Ed25519 public key: each chunk is kept masked and unmasked
/// here, which gives back the key's bytes.
pub fn embedded_public_key() -> (res: [u8; 32])
    ensures
        res@ == embedded_key_bytes(),
{
    let mut out = [0u8; 32];
    unmask_chunk_into(&mut out, 0, xor8(PUB_KEY_0, CHUNK_MASK));
    unmask_chunk_into(&mut out, 8, xor8(PUB_KEY_1, CHUNK_MASK));
    unmask_chunk_into(&mut out, 16, xor8(PUB_KEY_2, CHUNK_MASK));
    unmask_chunk_into(&mut out, 24, xor8(PUB_KEY_3, CHUNK_MASK));
    assert forall|j: int| 0 <= j < 32 implies out@[j] == embedded_key_bytes()[j] by {
        let k = j % 8;
        if j < 8 {
            assert(out@[0 + k] == (PUB_KEY_0@[k] ^ CHUNK_MASK@[k]) ^ CHUNK_MASK@[k]);
            lemma_xor_twice(PUB_KEY_0@[k], CHUNK_MASK@[k]);
        } else if j < 16 {
            assert(out@[8 + k] == (PUB_KEY_1@[k] ^ CHUNK_MASK@[k]) ^ CHUNK_MASK@[k]);
            lemma_xor_twice(PUB_KEY_1@[k], CHUNK_MASK@[k]);
        } else if j < 24 {
            assert(out@[16 + k] == (PUB_KEY_2@[k] ^ CHUNK_MASK@[k]) ^ CHUNK_MASK@[k]);
            lemma_xor_twice(PUB_KEY_2@[k], CHUNK_MASK@[k]);
        } else {
            assert(out@[24 + k] == (PUB_KEY_3@[k] ^ CHUNK_MASK@[k]) ^ CHUNK_MASK@[k]);
            lemma_xor_twice(PUB_KEY_3@[k], CHUNK_MASK@[k]);
        }
    }
    assert(out@ =~= embedded_key_bytes());
    out
}

/// The key that signatures are checked against: one loaded from a key file
/// beside the program when there is one, else the embedded key.
pub fn get_pub_key_bytes(external: Option<[u8; 32]>) -> (res: [u8; 32])
    ensures
        res@ == (match external {
            Some(k) => k@,
            None => embedded_key_bytes(),
        }),
{
    match external {
        Some(k) => k,
        None => embedded_public_key(),
    }
}

/// The key held in a public-key file: 32 raw bytes, or else UTF-8 text that,
/// trimmed, is the Base64 encoding of 32 bytes.
pub open spec fn key_file_contents(data: Seq<u8>) -> Option<Seq<u8>> {
    if data.len() == 32 {
        Some(data)
    } else if !valid_utf8(data) {
        None
    } else {
        match base64_decoded(trim(decode_utf8(data))) {
            Some(b) => if b.len() == 32 {
                Some(b)
            } else {
                None
            },
            None => None,
        }
    }
}

/// Reads a public key from the contents of a key file.
pub fn parse_public_key_file(data: &[u8]) -> (res: Option<[u8; 32]>)
    ensures
        res matches Some(k) ==> key_file_contents(data@) == Some(k@),
        res is None ==> key_file_contents(data@) is None,
{
    if data.len() == 32 {
        return Some(to_array_32(data));
    }
    let text = match utf8_decode(data) {
        Some(t) => t,
        None => return None,
    };
    let trimmed = string_of(trim_chars(chars_of(text.as_str()).as_slice()).as_slice());
    match base64_decode(trimmed.as_str()) {
        Ok(decoded) => {
            if decoded.len() == 32 {
                Some(to_array_32(decoded.as_slice()))
            } else {
                None
            }
        },
        Err(_) => None,
    }
}

/// The views of the contents of candidate key files (`None` where a file
/// could not be read).
pub open spec fn files_view(files: Seq<Option<Vec<u8>>>) -> Seq<Option<Seq<u8>>> {
    files.map_values(|f: Option<Vec<u8>>| match f {
        Some(d) => Some(d@),
        None => None,
    })
}

/// The key of the first candidate file, in order, that was read and holds a
/// key; `None` when there is none.
pub open spec fn first_file_key(files: Seq<Option<Seq<u8>>>) -> Option<Seq<u8>>
    decreases files.len(),
{
    if files.len() == 0 {
        None
    } else {
        match files[0] {
            Some(data) => match key_file_contents(data) {
                Some(k) => Some(k),
                None => first_file_key(files.drop_first()),
            },
            None => first_file_key(files.drop_first()),
        }
    }
}

/// Picks the public key from the candidate key files next to the program,
/// given in the order they are tried: the first one that was read and holds
/// a key.
pub fn try_load_external_pub_key(files: &Vec<Option<Vec<u8>>>) -> (res: Option<[u8; 32]>)
    ensures
        res matches Some(k) ==> first_file_key(files_view(files@)) == Some(k@),
        res is None ==> first_file_key(files_view(files@)) is None,
{
    let n = files.len();
    let ghost all = files_view(files@);
    assert(all.skip(0) == all);
    for i in 0..n
        invariant
            n == files@.len(),
            all == files_view(files@),
            first_file_key(all) == first_file_key(all.skip(i as int)),
    {
        let ghost rest = all.skip(i as int);
        assert(rest.drop_first() == all.skip(i + 1));
        assert(rest[0] == all[i as int]);
        match &files[i] {
            Some(data) => {
                assert(all[i as int] == Some(data@));
                match parse_public_key_file(data.as_slice()) {
                    Some(k) => return Some(k),
                    None => {},
                }
            },
            None => {},
        }
    }
    assert(all.skip(n as int).len() == 0);
    None
}

// ---------------------------------------------------------------------------
// Signatures
// ---------------------------------------------------------------------------

/// Whether `signature_b64` is the Base64 encoding of a 64-byte Ed25519
/// signature of the UTF-8 bytes of `payload` under `public_key`.
pub open spec fn signature_accepted(public_key: Seq<u8>, payload: Seq<char>, signature_b64: Seq<char>) -> bool {
    match base64_decoded(signature_b64) {
        Some(sig) => sig.len() == 64 && ed25519_accepts(public_key, encode_utf8(payload), sig),
        None => false,
    }
}

/// Checks an Ed25519 signature, given in Base64, over the UTF-8 bytes of
/// `payload`; `true` only if the key is valid and the signature checks out.
pub fn verify_signature(public_key: &[u8; 32], payload: &str, sig_b64: &str) -> (res: bool)
    ensures
        res == signature_accepted(public_key@, payload@, sig_b64@),
        res ==> ed25519_key_valid(public_key@),
{
    let sig_bytes = match base64_decode(sig_b64) {
        Ok(b) => b,
        Err(_) => return false,
    };
    if sig_bytes.len() != 64 {
        return false;
    }
    let sig = to_array_64(sig_bytes.as_slice());
    let message = utf8_bytes(payload);
    ed25519_verify(public_key, message.as_slice(), &sig).is_ok()
}

/// Signs the UTF-8 bytes of `payload` and encodes the signature in Base64.
pub fn sign_payload(secret: &[u8; 32], payload: &str) -> (res: String)
    ensures
        res@ == base64_encoded(ed25519_signature_of(secret@, encode_utf8(payload@))),
        signature_accepted(ed25519_public_of(secret@), payload@, res@),
        forall|i: int| 0 <= i < res@.len() ==> is_base64_char(#[trigger] res@[i]),
{
    let message = utf8_bytes(payload);
    let sig = ed25519_sign(secret, message.as_slice());
    base64_encode(&sig)
}

/// The public key that belongs to a secret key.
pub fn public_key_of(secret: &[u8; 32]) -> (res: [u8; 32])
    ensures
        res@ == ed25519_public_of(secret@),
        ed25519_key_valid(res@),
{
    ed25519_public(secret)
}

// ---------------------------------------------------------------------------
// File encryption
// ---------------------------------------------------------------------------

/// The salt appended to the machine identifier when the file key is derived.
pub open spec fn file_salt() -> Seq<char> {
    "HangHoaPOS_licdat_salt_v1_2025!"@
}

/// The file key of a machine: SHA-256 of the machine identifier's UTF-8 bytes
/// followed by the salt's.
pub open spec fn file_key(machine_id: Seq<char>) -> Seq<u8> {
    sha256_digest(encode_utf8(machine_id) + encode_utf8(file_salt()))
}

/// Derives the 32-byte file-encryption key from the machine identifier, so a
/// file is unreadable on a machine with another identifier.
pub fn derive_file_key(machine_id: &str) -> (res: [u8; 32])
    ensures
        res@ == file_key(machine_id@),
{
    let mut input = utf8_bytes(machine_id);
    let salt = utf8_bytes("HangHoaPOS_licdat_salt_v1_2025!");
    let mut i: usize = 0;
    let n = salt.len();
    let ghost start = input@;
    while i < n
        invariant
            n == salt@.len(),
            i <= n,
            input@ == start + salt@.subrange(0, i as int),
        decreases n - i,
    {
        input.push(salt[i]);
        assert(salt@.subrange(0, i + 1) == salt@.subrange(0, i as int).push(salt@[i as int]));
        i += 1;
    }
    assert(salt@.subrange(0, n as int) == salt@);
    sha256(input.as_slice())
}

/// The XOR stream of `data` with the repeated 32-byte `key`.
pub open spec fn xor_stream(data: Seq<u8>, key: Seq<u8>) -> Seq<u8> {
    Seq::new(data.len(), |i: int| data[i] ^ key[i % 32])
}

/// XOR-stream cipher: encryption and decryption are the same operation.
pub fn xor_crypt(data: &[u8], key: &[u8; 32]) -> (res: Vec<u8>)
    ensures
        res@ == xor_stream(data@, key@),
{
    let mut out: Vec<u8> = Vec::new();
    let n = data.len();
    for i in 0..n
        invariant
            n == data@.len(),
            out@.len() == i,
            forall|j: int| 0 <= j < i ==> out@[j] == data@[j] ^ key@[j % 32],
    {
        out.push(data[i] ^ key[i % 32]);
    }
    assert(out@ =~= xor_stream(data@, key@));
    out
}

/// Applying the XOR stream twice with the same key gives the data back, so
/// a file written with a machine's key reads back unchanged with it.
pub proof fn lemma_xor_stream_involution(data: Seq<u8>, key: Seq<u8>)
    ensures
        xor_stream(xor_stream(data, key), key) == data,
{
    let once = xor_stream(data, key);
    assert forall|i: int| 0 <= i < data.len() implies #[trigger] xor_stream(once, key)[i] == data[i] by {
        lemma_xor_twice(data[i], key[i % 32]);
    }
    assert(xor_stream(once, key) =~= data);
}

} // verus!
