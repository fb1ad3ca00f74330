//! The vendor-side license generator: signing license keys, checking them
//! against a public key, display formatting, and the state of the generator
//! form.
use vstd::prelude::*;
use vstd::utf8::*;

use crate::calendar::{expiry_display, expiry_to_display, format_local_time, timestamp_text};
use crate::crypto::{
    base64_decode, base64_decoded, base64_encoded, decode_error_text, ed25519_accepts,
    ed25519_check_key, signature_error_text,
    ed25519_key_valid, ed25519_public_of, ed25519_signature_of, ed25519_verify, is_base64_char,
    public_key_of, random_secret_key, sign_payload, signature_accepted, to_array_32, to_array_64,
};
use crate::license::{
    build_payload, is_known_edition, is_prefix_chars, is_valid_edition, key_prefix,
    normalize_key_chars, normalized_key, payload_text,
};
use crate::text::{
    append_chars, chars_of, copy_range, fields_view, owned, parse_u64, parse_u64_chars,
    split_fields, split_n, string_of, trim, trim_chars, uppercased, uppercase_chars, utf8_bytes,
};

verus! {

// ---------------------------------------------------------------------------
// Editions
// ---------------------------------------------------------------------------

/// The editions, in the order the generator offers them.
pub open spec fn edition_list() -> Seq<Seq<char>> {
    seq!["FREE"@, "BASIC"@, "PRO"@, "LIFETIME"@]
}

/// The edition at position `idx` of the generator's list.
pub fn edition_at(idx: usize) -> (res: &'static str)
    requires
        idx < 4,
    ensures
        res@ == edition_list()[idx as int],
{
    if idx == 0 {
        "FREE"
    } else if idx == 1 {
        "BASIC"
    } else if idx == 2 {
        "PRO"
    } else {
        "LIFETIME"
    }
}

// ---------------------------------------------------------------------------
// Display form of a key
// ---------------------------------------------------------------------------

/// `s` cut into groups of four characters joined by `-`.
pub open spec fn hyphenated(s: Seq<char>) -> Seq<char>
    decreases s.len(),
{
    if s.len() <= 4 {
        s
    } else {
        s.take(4) + seq!['-'] + hyphenated(s.skip(4))
    }
}

/// The display form of a key: with hyphens requested and five `|`-separated
/// fields, the signature grouped by four characters; otherwise unchanged.
pub open spec fn display_key(raw: Seq<char>, add_hyphens: bool) -> Seq<char> {
    if !add_hyphens || raw.len() == 0 {
        raw
    } else {
        let parts = split_fields(raw, '|', 5);
        if parts.len() != 5 {
            raw
        } else {
            parts[0] + seq!['|'] + parts[1] + seq!['|'] + parts[2] + seq!['|'] + parts[3] + seq!['|']
                + hyphenated(parts[4])
        }
    }
}

/// Groups a character sequence by four, joined by `-`.
pub fn hyphenate(s: &[char]) -> (res: Vec<char>)
    ensures
        res@ == hyphenated(s@),
{
    let n = s.len();
    if n <= 4 {
        return copy_range(s, 0, n);
    }
    let mut out = copy_range(s, 0, 4);
    let mut i: usize = 4;
    assert(s@.skip(4) == s@.subrange(4, n as int));
    assert(s@.take(4) == s@.subrange(0, 4));
    while n - i > 4
        invariant
            4 <= i < n == s@.len(),
            hyphenated(s@) == out@ + seq!['-'] + hyphenated(s@.skip(i as int)),
        decreases n - i,
    {
        let ghost rest = s@.skip(i as int);
        assert(rest.take(4) == s@.subrange(i as int, i + 4));
        assert(rest.skip(4) == s@.skip(i + 4));
        let ghost before = out@;
        out.push('-');
        append_chars(&mut out, copy_range(s, i, i + 4).as_slice());
        assert(hyphenated(s@) == out@ + seq!['-'] + hyphenated(s@.skip(i + 4)));
        i = i + 4;
    }
    assert(hyphenated(s@.skip(i as int)) == s@.subrange(i as int, n as int));
    out.push('-');
    append_chars(&mut out, copy_range(s, i, n).as_slice());
    out
}

/// Formats a key for display, optionally grouping the signature by four.
pub fn format_key_display(raw: &str, add_hyphens: bool) -> (res: String)
    ensures
        res@ == display_key(raw@, add_hyphens),
{
    let chars = chars_of(raw);
    if !add_hyphens || chars.len() == 0 {
        return owned(raw);
    }
    let parts = split_n(chars.as_slice(), '|', 5);
    if parts.len() != 5 {
        return owned(raw);
    }
    let ghost pv = fields_view(parts@);
    assert(pv[0] == parts@[0]@ && pv[1] == parts@[1]@ && pv[2] == parts@[2]@ && pv[3]
        == parts@[3]@ && pv[4] == parts@[4]@);
    let mut out = copy_range(parts[0].as_slice(), 0, parts[0].len());
    assert(out@ == parts@[0]@);
    out.push('|');
    append_chars(&mut out, parts[1].as_slice());
    out.push('|');
    append_chars(&mut out, parts[2].as_slice());
    out.push('|');
    append_chars(&mut out, parts[3].as_slice());
    out.push('|');
    append_chars(&mut out, hyphenate(parts[4].as_slice()).as_slice());
    string_of(out.as_slice())
}

/// The generator's own normalization of a key before checking it; the same
/// canonical form as the application's.
pub fn normalize_key_for_verify(key: &str) -> (res: String)
    ensures
        res@ == normalized_key(key@),
{
    string_of(normalize_key_chars(chars_of(key).as_slice()).as_slice())
}

// ---------------------------------------------------------------------------
// Generating a key
// ---------------------------------------------------------------------------

/// Why a key could not be generated.
#[derive(Debug, Clone, PartialEq, Eq)]
pub enum GenerateError {
    /// The machine identifier is empty.
    EmptyMachineId,
    /// The edition is not one of the known editions.
    InvalidEdition,
    /// The private-key file could not be read.
    KeyFileUnreadable { reason: String },
    /// The private key is not 32 bytes long.
    InvalidKeyLength,
}

/// The mathematical value of a [`GenerateError`].
pub enum GenerateErrorView {
    EmptyMachineId,
    InvalidEdition,
    KeyFileUnreadable { reason: Seq<char> },
    InvalidKeyLength,
}

impl View for GenerateError {
    type V = GenerateErrorView;

    open spec fn view(&self) -> GenerateErrorView {
        match self {
            GenerateError::EmptyMachineId => GenerateErrorView::EmptyMachineId,
            GenerateError::InvalidEdition => GenerateErrorView::InvalidEdition,
            GenerateError::KeyFileUnreadable { reason } => GenerateErrorView::KeyFileUnreadable {
                reason: reason@,
            },
            GenerateError::InvalidKeyLength => GenerateErrorView::InvalidKeyLength,
        }
    }
}

/// The message shown for a generation error.
pub open spec fn generate_error_text(e: GenerateErrorView) -> Seq<char> {
    match e {
        GenerateErrorView::EmptyMachineId => "Hardware ID (Mã máy) không được để trống."@,
        GenerateErrorView::InvalidEdition => "Edition không hợp lệ."@,
        GenerateErrorView::KeyFileUnreadable { reason } => "Không đọc được private key: "@ + reason,
        GenerateErrorView::InvalidKeyLength => "Private key phải đúng 32 bytes."@,
    }
}

impl GenerateError {
    /// The message shown for this error.
    pub fn message(&self) -> (res: String)
        ensures
            res@ == generate_error_text(self@),
    {
        match self {
            GenerateError::EmptyMachineId => "Hardware ID (Mã máy) không được để trống.".to_owned(),
            GenerateError::InvalidEdition => "Edition không hợp lệ.".to_owned(),
            GenerateError::KeyFileUnreadable { reason } => {
                let mut out = chars_of("Không đọc được private key: ");
                append_chars(&mut out, chars_of(reason.as_str()).as_slice());
                string_of(out.as_slice())
            },
            GenerateError::InvalidKeyLength => "Private key phải đúng 32 bytes.".to_owned(),
        }
    }
}

/// The expiry of a key valid for `days` days from `now`; 0 (lifetime) when
/// `days` is negative.
pub open spec fn expiry_after(days: i64, now: u64) -> u64 {
    if days < 0 {
        0
    } else {
        (now + days * 86400) as u64
    }
}

/// A generated key: the payload, `|`, and the Base64 Ed25519 signature of the
/// payload's UTF-8 bytes under `secret`.
pub open spec fn generated_key(machine: Seq<char>, edition: Seq<char>, expiry: u64, secret: Seq<u8>) -> Seq<char> {
    let payload = payload_text(machine, expiry, edition);
    payload + seq!['|'] + base64_encoded(ed25519_signature_of(secret, encode_utf8(payload)))
}

/// What the signature part of a generated key satisfies: it verifies under
/// the public key of `secret`, and it is written in the Base64 alphabet.
pub open spec fn generated_signature_sound(machine: Seq<char>, edition: Seq<char>, expiry: u64, secret: Seq<u8>) -> bool {
    let payload = payload_text(machine, expiry, edition);
    let sig = base64_encoded(ed25519_signature_of(secret, encode_utf8(payload)));
    &&& signature_accepted(ed25519_public_of(secret), payload, sig)
    &&& forall|i: int| 0 <= i < sig.len() ==> is_base64_char(#[trigger] sig[i])
}

/// The views of a private-key file that was or was not read.
pub open spec fn file_view(f: Result<Vec<u8>, String>) -> Result<Seq<u8>, Seq<char>> {
    match f {
        Ok(b) => Ok(b@),
        Err(e) => Err(e@),
    }
}

/// The outcome of generating a key: the machine identifier (trimmed) must not
/// be empty, the edition must be known, the private-key file must have been
/// read and hold 32 bytes; then the key and its expiry.
pub open spec fn generation_result(
    machine_id: Seq<char>,
    edition: Seq<char>,
    days: i64,
    key_file: Result<Seq<u8>, Seq<char>>,
    now: u64,
) -> Result<(Seq<char>, u64), GenerateErrorView> {
    if trim(machine_id).len() == 0 {
        Err(GenerateErrorView::EmptyMachineId)
    } else if !is_known_edition(edition) {
        Err(GenerateErrorView::InvalidEdition)
    } else {
        match key_file {
            Err(reason) => Err(GenerateErrorView::KeyFileUnreadable { reason }),
            Ok(secret) => if secret.len() != 32 {
                Err(GenerateErrorView::InvalidKeyLength)
            } else {
                Ok(
                    (
                        generated_key(trim(machine_id), edition, expiry_after(days, now), secret),
                        expiry_after(days, now),
                    ),
                )
            },
        }
    }
}

/// Where generating a key would compute an expiry past the range of `u64`:
/// the checks before it pass (machine identifier, edition, a 32-byte private
/// key) and the validity is not lifetime, but `now` plus the days does not fit.
pub open spec fn expiry_overflows(
    machine_id: Seq<char>,
    edition: Seq<char>,
    days: i64,
    key_file: Result<Seq<u8>, Seq<char>>,
    now: u64,
) -> bool {
    &&& trim(machine_id).len() > 0
    &&& is_known_edition(edition)
    &&& key_file matches Ok(secret) && secret.len() == 32
    &&& days >= 0
    &&& now + days * 86400 > u64::MAX
}

/// The views of a generation outcome.
pub open spec fn generation_view(r: Result<(String, u64), GenerateError>) -> Result<(Seq<char>, u64), GenerateErrorView> {
    match r {
        Ok((k, e)) => Ok((k@, e)),
        Err(e) => Err(e@),
    }
}

/// Generates a license key for `machine_id` and `edition`, valid for `days`
/// days from `now` (lifetime when `days` is negative), signed with the
/// private key read from the key file.
pub fn generate_license_key(
    machine_id: &str,
    edition: &str,
    days: i64,
    secret_key_file: Result<Vec<u8>, String>,
    now: u64,
) -> (res: Result<(String, u64), GenerateError>)
    requires
        !expiry_overflows(machine_id@, edition@, days, file_view(secret_key_file), now),
    ensures
        generation_view(res) == generation_result(
            machine_id@,
            edition@,
            days,
            file_view(secret_key_file),
            now,
        ),
        res is Ok ==> generated_signature_sound(
            trim(machine_id@),
            edition@,
            expiry_after(days, now),
            file_view(secret_key_file)->Ok_0,
        ),
{
    let machine = trim_chars(chars_of(machine_id).as_slice());
    if machine.len() == 0 {
        return Err(GenerateError::EmptyMachineId);
    }
    if !is_valid_edition(edition) {
        return Err(GenerateError::InvalidEdition);
    }
    let secret_bytes = match secret_key_file {
        Ok(b) => b,
        Err(reason) => return Err(GenerateError::KeyFileUnreadable { reason }),
    };
    if secret_bytes.len() != 32 {
        return Err(GenerateError::InvalidKeyLength);
    }
    let secret = to_array_32(secret_bytes.as_slice());
    let expiry: u64 = if days < 0 {
        0
    } else {
        now + (days as u64) * 86400
    };
    assert(expiry == expiry_after(days, now));
    let machine_text = string_of(machine.as_slice());
    let payload = build_payload(machine_text.as_str(), expiry, edition);
    let sig_b64 = sign_payload(&secret, payload.as_str());
    let mut key = chars_of(payload.as_str());
    key.push('|');
    append_chars(&mut key, chars_of(sig_b64.as_str()).as_slice());
    assert(key@ =~= generated_key(machine@, edition@, expiry, secret@));
    Ok((string_of(key.as_slice()), expiry))
}

// ---------------------------------------------------------------------------
// Checking a key against a public key
// ---------------------------------------------------------------------------

/// Why a key did not check out.
#[derive(Debug)]
pub enum VerifyError {
    /// The public-key file could not be read.
    KeyFileUnreadable { reason: String },
    /// The public key is not 32 bytes long.
    InvalidKeyLength,
    /// The public key is not a valid Ed25519 key.
    InvalidPublicKey(ed25519_dalek::SignatureError),
    /// Not of the form `HHPOS|machine|expiry|edition|signature`.
    InvalidFormat,
    /// The signature is not valid Base64.
    InvalidBase64(base64::DecodeError),
    /// The signature is not 64 bytes long.
    InvalidSignatureLength,
    /// The signature does not verify.
    InvalidSignature(ed25519_dalek::SignatureError),
}

/// The kind of a [`VerifyError`], with the file error's text.
pub enum VerifyErrorView {
    KeyFileUnreadable { reason: Seq<char> },
    InvalidKeyLength,
    InvalidPublicKey,
    InvalidFormat,
    InvalidBase64,
    InvalidSignatureLength,
    InvalidSignature,
}

impl View for VerifyError {
    type V = VerifyErrorView;

    open spec fn view(&self) -> VerifyErrorView {
        match self {
            VerifyError::KeyFileUnreadable { reason } => VerifyErrorView::KeyFileUnreadable {
                reason: reason@,
            },
            VerifyError::InvalidKeyLength => VerifyErrorView::InvalidKeyLength,
            VerifyError::InvalidPublicKey(_) => VerifyErrorView::InvalidPublicKey,
            VerifyError::InvalidFormat => VerifyErrorView::InvalidFormat,
            VerifyError::InvalidBase64(_) => VerifyErrorView::InvalidBase64,
            VerifyError::InvalidSignatureLength => VerifyErrorView::InvalidSignatureLength,
            VerifyError::InvalidSignature(_) => VerifyErrorView::InvalidSignature,
        }
    }
}

/// The fixed part of the message for a key-check error: all of it, except
/// for the kinds that carry an outside error, whose text follows.
pub open spec fn verify_error_lead(e: VerifyErrorView) -> Seq<char> {
    match e {
        VerifyErrorView::KeyFileUnreadable { reason } => "Không đọc public key: "@ + reason,
        VerifyErrorView::InvalidKeyLength => "Public key phải đúng 32 bytes."@,
        VerifyErrorView::InvalidPublicKey => "Public key lỗi: "@,
        VerifyErrorView::InvalidFormat =>
            "Key sai định dạng. Cần: HHPOS|machine|expiry|edition|signature"@,
        VerifyErrorView::InvalidBase64 => "Signature base64 lỗi: "@,
        VerifyErrorView::InvalidSignatureLength => "Signature phải 64 bytes."@,
        VerifyErrorView::InvalidSignature => "Chữ ký không hợp lệ: "@,
    }
}

/// The kinds whose message ends with the text of an outside error.
pub open spec fn verify_error_has_detail(e: VerifyErrorView) -> bool {
    ||| e is InvalidPublicKey
    ||| e is InvalidBase64
    ||| e is InvalidSignature
}

fn lead_and_detail(lead: &str, detail: String) -> (res: String)
    ensures
        res@ == lead@ + detail@,
{
    let mut out = chars_of(lead);
    append_chars(&mut out, chars_of(detail.as_str()).as_slice());
    string_of(out.as_slice())
}

impl VerifyError {
    /// The message shown for this error: the fixed text, followed for the
    /// kinds that carry an outside error by that error's own text.
    pub fn message(&self) -> (res: String)
        ensures
            !verify_error_has_detail(self@) ==> res@ == verify_error_lead(self@),
            verify_error_has_detail(self@) ==> res@.len() >= verify_error_lead(self@).len()
                && res@.take(verify_error_lead(self@).len() as int) == verify_error_lead(self@),
    {
        let res = match self {
            VerifyError::KeyFileUnreadable { reason } => {
                lead_and_detail("Không đọc public key: ", reason.clone())
            },
            VerifyError::InvalidKeyLength => "Public key phải đúng 32 bytes.".to_owned(),
            VerifyError::InvalidPublicKey(e) => lead_and_detail("Public key lỗi: ", signature_error_text(e)),
            VerifyError::InvalidFormat =>
                "Key sai định dạng. Cần: HHPOS|machine|expiry|edition|signature".to_owned(),
            VerifyError::InvalidBase64(e) => lead_and_detail("Signature base64 lỗi: ", decode_error_text(e)),
            VerifyError::InvalidSignatureLength => "Signature phải 64 bytes.".to_owned(),
            VerifyError::InvalidSignature(e) =>
                lead_and_detail("Chữ ký không hợp lệ: ", signature_error_text(e)),
        };
        proof {
            let lead = verify_error_lead(self@);
            if verify_error_has_detail(self@) {
                assert(res@.take(lead.len() as int) =~= lead);
            }
        }
        res
    }
}

/// The report on a key that checked out.
pub open spec fn verified_message(machine: Seq<char>, edition: Seq<char>, expiry: u64) -> Seq<char> {
    "✅ Key hợp lệ\nMáy: "@ + machine + "\nGói: "@ + edition + "\nHết hạn: "@ + expiry_display(expiry)
}

/// The first four fields joined by `|`: the text that was signed.
pub open spec fn signed_text(parts: Seq<Seq<char>>) -> Seq<char> {
    parts[0] + seq!['|'] + parts[1] + seq!['|'] + parts[2] + seq!['|'] + parts[3]
}

/// The outcome of checking a key: the public-key file must have been read,
/// hold 32 bytes and be a valid key; the normalized, trimmed key must have
/// five fields starting with `HHPOS`; the last field must decode from Base64
/// to 64 bytes that verify over the first four fields. The report names the
/// machine, the edition and the expiry (0 when the field is not a number).
pub open spec fn verification_result(key: Seq<char>, key_file: Result<Seq<u8>, Seq<char>>) -> Result<
    Seq<char>,
    VerifyErrorView,
> {
    match key_file {
        Err(reason) => Err(VerifyErrorView::KeyFileUnreadable { reason }),
        Ok(pk) => if pk.len() != 32 {
            Err(VerifyErrorView::InvalidKeyLength)
        } else if !ed25519_key_valid(pk) {
            Err(VerifyErrorView::InvalidPublicKey)
        } else {
            let parts = split_fields(trim(normalized_key(key)), '|', 5);
            if parts.len() != 5 || parts[0] != key_prefix() {
                Err(VerifyErrorView::InvalidFormat)
            } else {
                match base64_decoded(parts[4]) {
                    None => Err(VerifyErrorView::InvalidBase64),
                    Some(sig) => if sig.len() != 64 {
                        Err(VerifyErrorView::InvalidSignatureLength)
                    } else if !ed25519_accepts(pk, encode_utf8(signed_text(parts)), sig) {
                        Err(VerifyErrorView::InvalidSignature)
                    } else {
                        Ok(
                            verified_message(
                                parts[1],
                                parts[3],
                                match parse_u64(parts[2]) {
                                    Some(v) => v,
                                    None => 0,
                                },
                            ),
                        )
                    },
                }
            }
        },
    }
}

/// The views of a key-check outcome.
pub open spec fn verify_view(r: Result<String, VerifyError>) -> Result<Seq<char>, VerifyErrorView> {
    match r {
        Ok(s) => Ok(s@),
        Err(e) => Err(e@),
    }
}

/// Checks a license key against the public key read from a key file.
pub fn verify_license_key(key: &str, public_key_file: Result<Vec<u8>, String>) -> (res: Result<
    String,
    VerifyError,
>)
    ensures
        verify_view(res) == verification_result(key@, file_view(public_key_file)),
{
    let normalized = normalize_key_chars(chars_of(key).as_slice());
    let pk_bytes = match public_key_file {
        Ok(b) => b,
        Err(reason) => return Err(VerifyError::KeyFileUnreadable { reason }),
    };
    if pk_bytes.len() != 32 {
        return Err(VerifyError::InvalidKeyLength);
    }
    let pk = to_array_32(pk_bytes.as_slice());
    match ed25519_check_key(&pk) {
        Ok(()) => {},
        Err(e) => return Err(VerifyError::InvalidPublicKey(e)),
    }
    let trimmed = trim_chars(normalized.as_slice());
    let parts = split_n(trimmed.as_slice(), '|', 5);
    let ghost pv = fields_view(parts@);
    if parts.len() != 5 {
        return Err(VerifyError::InvalidFormat);
    }
    assert(pv[0] == parts@[0]@ && pv[1] == parts@[1]@ && pv[2] == parts@[2]@ && pv[3]
        == parts@[3]@ && pv[4] == parts@[4]@);
    if !is_prefix_chars(parts[0].as_slice()) {
        return Err(VerifyError::InvalidFormat);
    }
    let mut payload = copy_range(parts[0].as_slice(), 0, parts[0].len());
    assert(payload@ == parts@[0]@);
    payload.push('|');
    append_chars(&mut payload, parts[1].as_slice());
    payload.push('|');
    append_chars(&mut payload, parts[2].as_slice());
    payload.push('|');
    append_chars(&mut payload, parts[3].as_slice());
    assert(payload@ == signed_text(pv));
    let sig_text = string_of(parts[4].as_slice());
    let sig_bytes = match base64_decode(sig_text.as_str()) {
        Ok(b) => b,
        Err(e) => return Err(VerifyError::InvalidBase64(e)),
    };
    if sig_bytes.len() != 64 {
        return Err(VerifyError::InvalidSignatureLength);
    }
    let sig = to_array_64(sig_bytes.as_slice());
    let payload_text = string_of(payload.as_slice());
    let message = utf8_bytes(payload_text.as_str());
    match ed25519_verify(&pk, message.as_slice(), &sig) {
        Ok(()) => {},
        Err(e) => return Err(VerifyError::InvalidSignature(e)),
    }
    let expiry = match parse_u64_chars(parts[2].as_slice()) {
        Some(v) => v,
        None => 0,
    };
    let mut out = chars_of("✅ Key hợp lệ\nMáy: ");
    append_chars(&mut out, parts[1].as_slice());
    append_chars(&mut out, chars_of("\nGói: ").as_slice());
    append_chars(&mut out, parts[3].as_slice());
    append_chars(&mut out, chars_of("\nHết hạn: ").as_slice());
    append_chars(&mut out, chars_of(expiry_to_display(expiry).as_str()).as_slice());
    Ok(string_of(out.as_slice()))
}

// ---------------------------------------------------------------------------
// Key-pair files
// ---------------------------------------------------------------------------

/// `0x` and the two lower-case hexadecimal digits of a byte.
pub open spec fn hex_literal(b: u8) -> Seq<char> {
    seq!['0', 'x', lower_hex_digit((b / 16) as int), lower_hex_digit((b % 16) as int)]
}

/// The lower-case hexadecimal digit for `d` (0..=15).
pub open spec fn lower_hex_digit(d: int) -> char {
    if d < 10 {
        (d + 48) as char
    } else {
        (d + 87) as char
    }
}

/// The bytes as `0x..` literals separated by `, `.
pub open spec fn hex_list(bytes: Seq<u8>) -> Seq<char>
    decreases bytes.len(),
{
    if bytes.len() == 0 {
        Seq::empty()
    } else if bytes.len() == 1 {
        hex_literal(bytes[0])
    } else {
        hex_list(bytes.drop_last()) + seq![',', ' '] + hex_literal(bytes.last())
    }
}

fn lower_hex_char(d: u8) -> (res: char)
    requires
        d < 16,
    ensures
        res == lower_hex_digit(d as int),
{
    if d < 10 {
        (d + 48) as char
    } else {
        (d + 87) as char
    }
}

/// The public key as an array literal `[0x.., 0x.., ...]`, for embedding in
/// the application.
pub fn format_pub_key_bytes(public_key: &[u8; 32]) -> (res: String)
    ensures
        res@ == seq!['['] + hex_list(public_key@) + seq![']'],
{
    let mut list: Vec<char> = Vec::new();
    for i in 0..32
        invariant
            list@ == hex_list(public_key@.take(i as int)),
    {
        let b = public_key[i];
        let ghost before = list@;
        if i > 0 {
            list.push(',');
            list.push(' ');
        }
        list.push('0');
        list.push('x');
        list.push(lower_hex_char(b / 16));
        list.push(lower_hex_char(b % 16));
        proof {
            let t = public_key@.take(i + 1);
            assert(t.drop_last() == public_key@.take(i as int));
            assert(t.last() == b);
            if i == 0 {
                assert(public_key@.take(0) =~= Seq::<u8>::empty());
                assert(hex_list(Seq::<u8>::empty()) == Seq::<char>::empty());
                assert(t.len() == 1);
                assert(list@ =~= hex_literal(b));
            } else {
                assert(list@ =~= before + seq![',', ' '] + hex_literal(b));
            }
        }
    }
    assert(public_key@.take(32) == public_key@);
    let mut out: Vec<char> = Vec::new();
    out.push('[');
    append_chars(&mut out, list.as_slice());
    out.push(']');
    assert(out@ =~= seq!['['] + hex_list(public_key@) + seq![']']);
    string_of(out.as_slice())
}

/// A freshly generated key pair, with the public key written as an array
/// literal for embedding in the application.
#[derive(Debug, Clone, PartialEq, Eq)]
pub struct KeyPair {
    pub secret: [u8; 32],
    pub public: [u8; 32],
    pub public_literal: String,
}

/// Generates a new Ed25519 key pair from a random secret key: the public key
/// belongs to the secret, is a valid key, and is also given as an array literal.
pub fn new_key_pair() -> (res: KeyPair)
    ensures
        res.public@ == ed25519_public_of(res.secret@),
        ed25519_key_valid(res.public@),
        res.public_literal@ == seq!['['] + hex_list(res.public@) + seq![']'],
{
    let secret = random_secret_key();
    let public = public_key_of(&secret);
    let public_literal = format_pub_key_bytes(&public);
    KeyPair { secret, public, public_literal }
}

/// The state of the generator's key-pair files.
#[derive(Debug, Clone, Copy, PartialEq, Eq)]
pub enum KeyPairStatus {
    MissingPrivate,
    MissingPublic,
    Invalid,
    Loaded,
}

/// The key-pair state: the private file is checked first, then the public
/// one; both present but either not exactly 32 bytes is invalid.
pub open spec fn key_pair_state(
    private_exists: bool,
    public_exists: bool,
    private_is_32_bytes: bool,
    public_is_32_bytes: bool,
) -> KeyPairStatus {
    if !private_exists {
        KeyPairStatus::MissingPrivate
    } else if !public_exists {
        KeyPairStatus::MissingPublic
    } else if !private_is_32_bytes || !public_is_32_bytes {
        KeyPairStatus::Invalid
    } else {
        KeyPairStatus::Loaded
    }
}

/// Classifies the key-pair files from what is known of them.
pub fn key_pair_status(
    private_exists: bool,
    public_exists: bool,
    private_is_32_bytes: bool,
    public_is_32_bytes: bool,
) -> (res: KeyPairStatus)
    ensures
        res == key_pair_state(private_exists, public_exists, private_is_32_bytes, public_is_32_bytes),
{
    if !private_exists {
        KeyPairStatus::MissingPrivate
    } else if !public_exists {
        KeyPairStatus::MissingPublic
    } else if !private_is_32_bytes || !public_is_32_bytes {
        KeyPairStatus::Invalid
    } else {
        KeyPairStatus::Loaded
    }
}

/// The label shown for a key-pair state.
pub open spec fn key_pair_label(s: KeyPairStatus) -> Seq<char> {
    match s {
        KeyPairStatus::MissingPrivate => "Missing private key"@,
        KeyPairStatus::MissingPublic => "Missing public key"@,
        KeyPairStatus::Invalid => "Invalid key pair"@,
        KeyPairStatus::Loaded => "Key pair loaded"@,
    }
}

/// The colour (red, green, blue) shown for a key-pair state.
pub open spec fn key_pair_rgb(s: KeyPairStatus) -> (u8, u8, u8) {
    match s {
        KeyPairStatus::MissingPrivate => (185, 28, 28),
        KeyPairStatus::MissingPublic => (185, 28, 28),
        KeyPairStatus::Invalid => (180, 83, 9),
        KeyPairStatus::Loaded => (22, 163, 74),
    }
}

impl KeyPairStatus {
    /// The label shown for this state.
    pub fn label(&self) -> (res: String)
        ensures
            res@ == key_pair_label(*self),
    {
        match self {
            KeyPairStatus::MissingPrivate => "Missing private key".to_owned(),
            KeyPairStatus::MissingPublic => "Missing public key".to_owned(),
            KeyPairStatus::Invalid => "Invalid key pair".to_owned(),
            KeyPairStatus::Loaded => "Key pair loaded".to_owned(),
        }
    }

    /// The colour shown for this state.
    pub fn rgb(&self) -> (res: (u8, u8, u8))
        ensures
            res == key_pair_rgb(*self),
    {
        match self {
            KeyPairStatus::MissingPrivate => (185, 28, 28),
            KeyPairStatus::MissingPublic => (185, 28, 28),
            KeyPairStatus::Invalid => (180, 83, 9),
            KeyPairStatus::Loaded => (22, 163, 74),
        }
    }
}

// ---------------------------------------------------------------------------
// The generator form
// ---------------------------------------------------------------------------

/// The tab shown by the generator.
#[derive(Debug, Clone, Copy, PartialEq, Eq)]
pub enum MainTab {
    KeysGenerator,
    Setup,
}

/// One generated key, as listed in the session log.
#[derive(Debug, Clone, PartialEq, Eq)]
pub struct LicenseLogEntry {
    pub time: String,
    pub customer_name: String,
    pub machine_id: String,
    pub edition: String,
    pub expiry: String,
    pub license_key: String,
}

/// The mathematical value of a [`LicenseLogEntry`].
pub struct LogEntryView {
    pub time: Seq<char>,
    pub customer_name: Seq<char>,
    pub machine_id: Seq<char>,
    pub edition: Seq<char>,
    pub expiry: Seq<char>,
    pub license_key: Seq<char>,
}

impl View for LicenseLogEntry {
    type V = LogEntryView;

    open spec fn view(&self) -> LogEntryView {
        LogEntryView {
            time: self.time@,
            customer_name: self.customer_name@,
            machine_id: self.machine_id@,
            edition: self.edition@,
            expiry: self.expiry@,
            license_key: self.license_key@,
        }
    }
}

/// The generator form: what was typed, the last key, the session log and
/// the status line.
#[derive(Debug)]
pub struct LicenseGenerator {
    pub tab: MainTab,
    pub registration_name: String,
    pub machine_id: String,
    pub edition_idx: usize,
    pub days_limit: i32,
    pub lifetime: bool,
    pub add_hyphens: bool,
    pub raw_license_key: String,
    pub display_license_key: String,
    pub private_key_path: String,
    pub public_key_path: String,
    pub output_dir: String,
    pub keygen_pub_bytes: String,
    pub license_log: Vec<LicenseLogEntry>,
    pub status_message: String,
    pub status_error: bool,
}

/// The mathematical value of a [`LicenseGenerator`].
pub struct GeneratorView {
    pub tab: MainTab,
    pub registration_name: Seq<char>,
    pub machine_id: Seq<char>,
    pub edition_idx: usize,
    pub days_limit: i32,
    pub lifetime: bool,
    pub add_hyphens: bool,
    pub raw_license_key: Seq<char>,
    pub display_license_key: Seq<char>,
    pub private_key_path: Seq<char>,
    pub public_key_path: Seq<char>,
    pub output_dir: Seq<char>,
    pub keygen_pub_bytes: Seq<char>,
    pub license_log: Seq<LogEntryView>,
    pub status_message: Seq<char>,
    pub status_error: bool,
}

impl View for LicenseGenerator {
    type V = GeneratorView;

    open spec fn view(&self) -> GeneratorView {
        GeneratorView {
            tab: self.tab,
            registration_name: self.registration_name@,
            machine_id: self.machine_id@,
            edition_idx: self.edition_idx,
            days_limit: self.days_limit,
            lifetime: self.lifetime,
            add_hyphens: self.add_hyphens,
            raw_license_key: self.raw_license_key@,
            display_license_key: self.display_license_key@,
            private_key_path: self.private_key_path@,
            public_key_path: self.public_key_path@,
            output_dir: self.output_dir@,
            keygen_pub_bytes: self.keygen_pub_bytes@,
            license_log: self.license_log@.map_values(|e: LicenseLogEntry| e@),
            status_message: self.status_message@,
            status_error: self.status_error,
        }
    }
}

/// The validity asked for: -1 (lifetime) when lifetime is ticked, else the
/// number of days, at least 1.
pub open spec fn effective_days_of(lifetime: bool, days_limit: i32) -> i64 {
    if lifetime {
        -1i64
    } else if days_limit < 1 {
        1i64
    } else {
        days_limit as i64
    }
}

/// The status line after a key was generated.
pub open spec fn generated_message(edition: Seq<char>, expiry: u64) -> Seq<char> {
    "Đã tạo key — Gói "@ + edition + ", hết hạn: "@ + expiry_display(expiry)
}

/// The form after "generate": on success the key is shown, logged first with
/// the time, customer, machine, edition and expiry, and the status line
/// reports it; on failure only the status line changes, to the error.
pub open spec fn after_generate(s: GeneratorView, now: u64, key_file: Result<Seq<u8>, Seq<char>>) -> GeneratorView {
    let edition = edition_list()[s.edition_idx as int];
    match generation_result(
        s.machine_id,
        edition,
        effective_days_of(s.lifetime, s.days_limit),
        key_file,
        now,
    ) {
        Ok((key, expiry)) => GeneratorView {
            raw_license_key: key,
            display_license_key: display_key(key, s.add_hyphens),
            license_log: seq![
                LogEntryView {
                    time: timestamp_text(now),
                    customer_name: s.registration_name,
                    machine_id: s.machine_id,
                    edition,
                    expiry: expiry_display(expiry),
                    license_key: key,
                },
            ] + s.license_log,
            status_message: generated_message(edition, expiry),
            status_error: false,
            ..s
        },
        Err(e) => GeneratorView { status_message: generate_error_text(e), status_error: true, ..s },
    }
}

impl LicenseGenerator {
    /// The form as it opens.
    pub fn new() -> (res: Self)
        ensures
            res@.tab == MainTab::KeysGenerator,
            res@.registration_name.len() == 0,
            res@.machine_id.len() == 0,
            res@.edition_idx == 2,
            res@.days_limit == 365,
            !res@.lifetime,
            res@.add_hyphens,
            res@.raw_license_key.len() == 0,
            res@.display_license_key.len() == 0,
            res@.private_key_path == "./keys/ed25519_private.key"@,
            res@.public_key_path == "./keys/ed25519_public.key"@,
            res@.output_dir == "./keys"@,
            res@.keygen_pub_bytes.len() == 0,
            res@.license_log.len() == 0,
            res@.status_message == "Sẵn sàng tạo key."@,
            !res@.status_error,
    {
        LicenseGenerator {
            tab: MainTab::KeysGenerator,
            registration_name: String::new(),
            machine_id: String::new(),
            edition_idx: 2,
            days_limit: 365,
            lifetime: false,
            add_hyphens: true,
            raw_license_key: String::new(),
            display_license_key: String::new(),
            private_key_path: "./keys/ed25519_private.key".to_owned(),
            public_key_path: "./keys/ed25519_public.key".to_owned(),
            output_dir: "./keys".to_owned(),
            keygen_pub_bytes: String::new(),
            license_log: Vec::new(),
            status_message: "Sẵn sàng tạo key.".to_owned(),
            status_error: false,
        }
    }

    /// Shows a success message.
    pub fn set_ok(&mut self, msg: String)
        ensures
            final(self)@ == (GeneratorView { status_message: msg@, status_error: false, ..old(self)@ }),
    {
        self.status_error = false;
        self.status_message = msg;
    }

    /// Shows an error message.
    pub fn set_err(&mut self, msg: String)
        ensures
            final(self)@ == (GeneratorView { status_message: msg@, status_error: true, ..old(self)@ }),
    {
        self.status_error = true;
        self.status_message = msg;
    }

    /// Recomputes the displayed key from the last key and the hyphen setting.
    pub fn refresh_display_key(&mut self)
        ensures
            final(self)@ == (GeneratorView {
                display_license_key: display_key(old(self)@.raw_license_key, old(self)@.add_hyphens),
                ..old(self)@
            }),
    {
        self.display_license_key = format_key_display(self.raw_license_key.as_str(), self.add_hyphens);
    }

    /// The validity in days asked for (-1 for lifetime).
    pub fn effective_days(&self) -> (res: i64)
        ensures
            res == effective_days_of(self.lifetime, self.days_limit),
    {
        if self.lifetime {
            -1
        } else if self.days_limit < 1 {
            1
        } else {
            self.days_limit as i64
        }
    }

    /// Generates a key from the form, with the private key read from its file.
    pub fn do_generate(&mut self, now: u64, secret_key_file: Result<Vec<u8>, String>)
        requires
            old(self).edition_idx < 4,
            !expiry_overflows(
                old(self)@.machine_id,
                edition_list()[old(self).edition_idx as int],
                effective_days_of(old(self).lifetime, old(self).days_limit),
                file_view(secret_key_file),
                now,
            ),
        ensures
            final(self)@ == after_generate(old(self)@, now, file_view(secret_key_file)),
    {
        let edition = edition_at(self.edition_idx);
        let days = self.effective_days();
        let ghost file = file_view(secret_key_file);
        match generate_license_key(self.machine_id.as_str(), edition, days, secret_key_file, now) {
            Ok((key, expiry)) => {
                let expiry_str = expiry_to_display(expiry);
                let entry = LicenseLogEntry {
                    time: format_local_time(now),
                    customer_name: self.registration_name.clone(),
                    machine_id: self.machine_id.clone(),
                    edition: edition.to_owned(),
                    expiry: expiry_str.clone(),
                    license_key: key.clone(),
                };
                self.raw_license_key = key;
                self.refresh_display_key();
                let ghost before = self.license_log@;
                self.license_log.insert(0, entry);
                let mut msg = chars_of("Đã tạo key — Gói ");
                append_chars(&mut msg, chars_of(edition).as_slice());
                append_chars(&mut msg, chars_of(", hết hạn: ").as_slice());
                append_chars(&mut msg, chars_of(expiry_str.as_str()).as_slice());
                self.set_ok(string_of(msg.as_slice()));
                assert(self.license_log@.map_values(|e: LicenseLogEntry| e@) =~= seq![entry@]
                    + before.map_values(|e: LicenseLogEntry| e@));
            },
            Err(e) => {
                let msg = e.message();
                self.set_err(msg);
            },
        }
    }

    /// The "copy" button under the key: with no key yet an error is shown and
    /// nothing is copied; otherwise the raw key is handed back for the
    /// clipboard and the copy is reported.
    pub fn copy_key(&mut self) -> (res: Option<String>)
        ensures
            old(self)@.raw_license_key.len() == 0 ==> res is None && final(self)@ == (GeneratorView {
                status_message: "Chưa có key để copy."@,
                status_error: true,
                ..old(self)@
            }),
            old(self)@.raw_license_key.len() > 0 ==> (res matches Some(k) && k@
                == old(self)@.raw_license_key),
            old(self)@.raw_license_key.len() > 0 ==> final(self)@ == (GeneratorView {
                status_message: "Đã copy key vào clipboard."@,
                status_error: false,
                ..old(self)@
            }),
    {
        if chars_of(self.raw_license_key.as_str()).len() == 0 {
            self.set_err("Chưa có key để copy.".to_owned());
            None
        } else {
            let key = self.raw_license_key.clone();
            self.set_ok("Đã copy key vào clipboard.".to_owned());
            Some(key)
        }
    }

    /// The "copy" button of a log row: hands back that row's key for the
    /// clipboard and reports the copy.
    pub fn copy_log_entry(&mut self, index: usize) -> (res: String)
        requires
            index < old(self).license_log@.len(),
        ensures
            res@ == old(self)@.license_log[index as int].license_key,
            final(self)@ == (GeneratorView {
                status_message: "Đã copy key từ log."@,
                status_error: false,
                ..old(self)@
            }),
    {
        let key = self.license_log[index].license_key.clone();
        self.set_ok("Đã copy key từ log.".to_owned());
        key
    }

    /// Empties the session log and reports it.
    pub fn clear_log(&mut self)
        ensures
            final(self)@ == (GeneratorView {
                license_log: Seq::empty(),
                status_message: "Đã xóa log."@,
                status_error: false,
                ..old(self)@
            }),
    {
        self.license_log.clear();
        self.set_ok("Đã xóa log.".to_owned());
        assert(self@.license_log =~= Seq::<LogEntryView>::empty());
    }

    /// The form after a key pair was written in the setup tab (the private and
    /// public key paths and the public-key literal), or after that failed.
    pub fn key_pair_created(&mut self, outcome: Result<(String, String, String), String>)
        ensures
            final(self)@ == (match outcome {
                Ok((p, q, b)) => GeneratorView {
                    private_key_path: p@,
                    public_key_path: q@,
                    keygen_pub_bytes: b@,
                    status_message: "Tạo cặp khóa thành công."@,
                    status_error: false,
                    ..old(self)@
                },
                Err(e) => GeneratorView { status_message: e@, status_error: true, ..old(self)@ },
            }),
    {
        match outcome {
            Ok((p, q, b)) => {
                self.private_key_path = p;
                self.public_key_path = q;
                self.keygen_pub_bytes = b;
                self.set_ok("Tạo cặp khóa thành công.".to_owned());
            },
            Err(e) => self.set_err(e),
        }
    }

    /// The form as it opens when a missing key pair was created on the spot:
    /// on success it takes the new paths and says so; a failure leaves it as is.
    pub fn key_pair_auto_created(&mut self, outcome: Result<(String, String, String), String>)
        ensures
            final(self)@ == (match outcome {
                Ok((p, q, b)) => GeneratorView {
                    private_key_path: p@,
                    public_key_path: q@,
                    status_message: "✓ Key pair tạo tự động. Sẵn sàng tạo key."@,
                    status_error: false,
                    ..old(self)@
                },
                Err(_) => old(self)@,
            }),
    {
        if let Ok((p, q, _)) = outcome {
            self.private_key_path = p;
            self.public_key_path = q;
            self.set_ok("✓ Key pair tạo tự động. Sẵn sàng tạo key.".to_owned());
        }
    }

    /// The colour (red, green, blue) of the status line: red for an error,
    /// green otherwise.
    pub fn status_rgb(&self) -> (res: (u8, u8, u8))
        ensures
            res == (if self.status_error {
                (185u8, 28u8, 28u8)
            } else {
                (22u8, 163u8, 74u8)
            }),
    {
        if self.status_error {
            (185, 28, 28)
        } else {
            (22, 163, 74)
        }
    }

    /// Whether pressing "generate" at `now` with this key file would compute
    /// an expiry past the range of `u64` (see [`expiry_overflows`]).
    pub fn generation_overflows(&self, now: u64, secret_key_file: &Result<Vec<u8>, String>) -> (res: bool)
        requires
            self.edition_idx < 4,
        ensures
            res == expiry_overflows(
                uppercased(trim(self@.machine_id)),
                edition_list()[self.edition_idx as int],
                effective_days_of(self.lifetime, self.days_limit),
                file_view(*secret_key_file),
                now,
            ),
    {
        let trimmed = trim_chars(chars_of(self.machine_id.as_str()).as_slice());
        let machine = uppercase_chars(trimmed.as_slice());
        if trim_chars(machine.as_slice()).len() == 0 {
            return false;
        }
        if !is_valid_edition(edition_at(self.edition_idx)) {
            return false;
        }
        let key_ok = match secret_key_file {
            Ok(b) => b.len() == 32,
            Err(_) => false,
        };
        if !key_ok {
            return false;
        }
        let days = self.effective_days();
        if days < 0 {
            return false;
        }
        let span: u64 = (days as u64) * 86400;
        now > u64::MAX - span
    }

    /// The "generate" button: the machine identifier is trimmed and
    /// upper-cased, then a key is generated.
    pub fn generate_clicked(&mut self, now: u64, secret_key_file: Result<Vec<u8>, String>)
        requires
            old(self).edition_idx < 4,
            !expiry_overflows(
                uppercased(trim(old(self)@.machine_id)),
                edition_list()[old(self).edition_idx as int],
                effective_days_of(old(self).lifetime, old(self).days_limit),
                file_view(secret_key_file),
                now,
            ),
        ensures
            final(self)@ == after_generate(
                GeneratorView {
                    machine_id: uppercased(trim(old(self)@.machine_id)),
                    ..old(self)@
                },
                now,
                file_view(secret_key_file),
            ),
    {
        let trimmed = trim_chars(chars_of(self.machine_id.as_str()).as_slice());
        self.machine_id = string_of(uppercase_chars(trimmed.as_slice()).as_slice());
        self.do_generate(now, secret_key_file);
    }
}

} // verus!
