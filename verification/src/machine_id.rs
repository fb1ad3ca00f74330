//! The machine identifier: a stable fingerprint derived from hardware and
//! system identity strings, shown as `XXXX-XXXX-XXXX`.
use vstd::prelude::*;
use vstd::utf8::*;

use crate::crypto::{sha256, sha256_digest};
use crate::text::{
    append_chars, chars_of, remove_char, string_of, trim, trim_chars, utf8_bytes, without_char,
};

verus! {

/// A value read from the registry, cleaned: trimmed, then with every NUL removed.
pub open spec fn cleaned_value(raw: Seq<char>) -> Seq<char> {
    without_char(trim(raw), '\0')
}

/// Cleans a value read from the registry.
pub fn clean_registry_value(raw: &str) -> (res: String)
    ensures
        res@ == cleaned_value(raw@),
{
    let trimmed = trim_chars(chars_of(raw).as_slice());
    string_of(remove_char(trimmed.as_slice(), '\0').as_slice())
}

/// The upper-case hexadecimal digit for `d` (0..=15).
pub open spec fn hex_digit(d: int) -> char {
    if d < 10 {
        (d + 48) as char
    } else {
        (d + 55) as char
    }
}

/// The two upper-case hexadecimal digits of a byte.
pub open spec fn hex_byte(b: u8) -> Seq<char> {
    seq![hex_digit((b / 16) as int), hex_digit((b % 16) as int)]
}

/// The upper-case hexadecimal text of the first six bytes of `digest`, as
/// `XXXX-XXXX-XXXX`.
pub open spec fn fingerprint_text(digest: Seq<u8>) -> Seq<char> {
    hex_byte(digest[0]) + hex_byte(digest[1]) + seq!['-'] + hex_byte(digest[2]) + hex_byte(digest[3])
        + seq!['-'] + hex_byte(digest[4]) + hex_byte(digest[5])
}

/// The domain-separation prefix hashed before the identity strings.
pub open spec fn id_prefix() -> Seq<char> {
    "HHPOS_MID_v1:"@
}

/// The identity strings joined by `|`.
pub open spec fn identity_text(
    machine_guid: Seq<char>,
    board_serial: Seq<char>,
    sys_manuf: Seq<char>,
    cpu_name: Seq<char>,
    hostname: Seq<char>,
) -> Seq<char> {
    machine_guid + seq!['|'] + board_serial + seq!['|'] + sys_manuf + seq!['|'] + cpu_name + seq!['|']
        + hostname
}

/// The machine identifier: the first six bytes of SHA-256 over the prefix and
/// the joined identity strings (as UTF-8), in upper-case hex as `XXXX-XXXX-XXXX`.
pub open spec fn machine_id_of(
    machine_guid: Seq<char>,
    board_serial: Seq<char>,
    sys_manuf: Seq<char>,
    cpu_name: Seq<char>,
    hostname: Seq<char>,
) -> Seq<char> {
    fingerprint_text(
        sha256_digest(
            encode_utf8(id_prefix()) + encode_utf8(
                identity_text(machine_guid, board_serial, sys_manuf, cpu_name, hostname),
            ),
        ),
    )
}

/// An upper-case hexadecimal digit.
pub open spec fn is_upper_hex_digit(c: char) -> bool {
    ('0' <= c && c <= '9') || ('A' <= c && c <= 'F')
}

/// The shape of a machine identifier: 14 characters, `-` at positions 4 and
/// 9, upper-case hexadecimal digits elsewhere.
pub open spec fn is_machine_id_shape(s: Seq<char>) -> bool {
    &&& s.len() == 14
    &&& s[4] == '-'
    &&& s[9] == '-'
    &&& forall|i: int| 0 <= i < 14 && i != 4 && i != 9 ==> is_upper_hex_digit(#[trigger] s[i])
}

fn hex_char(d: u8) -> (res: char)
    requires
        d < 16,
    ensures
        res == hex_digit(d as int),
        is_upper_hex_digit(res),
{
    if d < 10 {
        (d + 48) as char
    } else {
        (d + 55) as char
    }
}

fn push_hex_byte(out: &mut Vec<char>, b: u8)
    ensures
        final(out)@ == old(out)@ + hex_byte(b),
        is_upper_hex_digit(hex_byte(b)[0]),
        is_upper_hex_digit(hex_byte(b)[1]),
{
    out.push(hex_char(b / 16));
    out.push(hex_char(b % 16));
    assert(final(out)@ =~= old(out)@ + hex_byte(b));
}

/// Formats the first six bytes of a digest as `XXXX-XXXX-XXXX`.
pub fn fingerprint(digest: &[u8; 32]) -> (res: String)
    ensures
        res@ == fingerprint_text(digest@),
        is_machine_id_shape(res@),
{
    let mut out: Vec<char> = Vec::new();
    push_hex_byte(&mut out, digest[0]);
    push_hex_byte(&mut out, digest[1]);
    out.push('-');
    push_hex_byte(&mut out, digest[2]);
    push_hex_byte(&mut out, digest[3]);
    out.push('-');
    push_hex_byte(&mut out, digest[4]);
    push_hex_byte(&mut out, digest[5]);
    assert(out@ =~= fingerprint_text(digest@));
    string_of(out.as_slice())
}

/// Computes the machine identifier from the identity strings: Windows
/// `MachineGuid`, board serial number, system manufacturer, processor name
/// and computer name (each empty where it cannot be read).
pub fn collect_machine_id(
    machine_guid: &str,
    board_serial: &str,
    sys_manuf: &str,
    cpu_name: &str,
    hostname: &str,
) -> (res: String)
    ensures
        res@ == machine_id_of(machine_guid@, board_serial@, sys_manuf@, cpu_name@, hostname@),
        is_machine_id_shape(res@),
{
    let mut raw = chars_of(machine_guid);
    raw.push('|');
    append_chars(&mut raw, chars_of(board_serial).as_slice());
    raw.push('|');
    append_chars(&mut raw, chars_of(sys_manuf).as_slice());
    raw.push('|');
    append_chars(&mut raw, chars_of(cpu_name).as_slice());
    raw.push('|');
    append_chars(&mut raw, chars_of(hostname).as_slice());
    assert(raw@ =~= identity_text(machine_guid@, board_serial@, sys_manuf@, cpu_name@, hostname@));
    let raw_text = string_of(raw.as_slice());
    let mut input = utf8_bytes("HHPOS_MID_v1:");
    let raw_bytes = utf8_bytes(raw_text.as_str());
    let ghost prefix = input@;
    let n = raw_bytes.len();
    for i in 0..n
        invariant
            n == raw_bytes@.len(),
            input@ == prefix + raw_bytes@.subrange(0, i as int),
    {
        input.push(raw_bytes[i]);
        assert(raw_bytes@.subrange(0, i + 1) == raw_bytes@.subrange(0, i as int).push(
            raw_bytes@[i as int],
        ));
    }
    assert(raw_bytes@.subrange(0, n as int) == raw_bytes@);
    let digest = sha256(input.as_slice());
    fingerprint(&digest)
}

} // verus!
