//! The license and trial rules: the persisted records, the status reported at
//! each launch, key activation and the one-time trial.
use vstd::prelude::*;
use vstd::utf8::*;

use crate::crypto::{
    derive_file_key, file_key, signature_accepted, verify_signature, xor_crypt, xor_stream,
};
use crate::text::{
    append_chars, chars_of, same_text, decimal, decimal_chars, eq_ignore_ascii_case, eq_ignoring_ascii_case,
    parse_u64, parse_u64_chars, remove_char, remove_white_space, split_fields, split_n, string_of,
    trim, trim_chars, uppercased, uppercase_chars, utf8_bytes, utf8_decode, without_char,
    without_white_space, fields_view,
};

verus! {

// ---------------------------------------------------------------------------
// Constants
// ---------------------------------------------------------------------------

/// Length of the free trial, in days.
pub const TRIAL_DAYS: u64 = 7;

/// Clock skew, in seconds, tolerated before a clock rollback is reported.
pub const TIME_TOLERANCE_SECS: u64 = 300;

/// Seconds in a day.
pub const SECS_PER_DAY: u64 = 86400;

// ---------------------------------------------------------------------------
// Persisted records
// ---------------------------------------------------------------------------

/// The activated license, as stored (encrypted) in `license.dat`.
#[derive(Debug, Clone, PartialEq, Eq)]
pub struct LicenseFile {
    pub v: u32,
    pub machine_id: String,
    /// Unix time of expiry; 0 means a lifetime license.
    pub expiry: u64,
    pub edition: String,
    /// Base64 Ed25519 signature.
    pub sig: String,
    /// Updated at each launch to detect clock rollbacks.
    pub last_run: u64,
}

/// The trial record, as stored (encrypted) in `trial.dat`.
#[derive(Debug, Clone, PartialEq, Eq)]
pub struct TrialFile {
    pub v: u32,
    pub machine_id: String,
    pub trial_started: u64,
    pub last_run: u64,
}

/// The mathematical value of a [`LicenseFile`].
pub struct LicenseFileView {
    pub v: u32,
    pub machine_id: Seq<char>,
    pub expiry: u64,
    pub edition: Seq<char>,
    pub sig: Seq<char>,
    pub last_run: u64,
}

/// The mathematical value of a [`TrialFile`].
pub struct TrialFileView {
    pub v: u32,
    pub machine_id: Seq<char>,
    pub trial_started: u64,
    pub last_run: u64,
}

impl View for LicenseFile {
    type V = LicenseFileView;

    open spec fn view(&self) -> LicenseFileView {
        LicenseFileView {
            v: self.v,
            machine_id: self.machine_id@,
            expiry: self.expiry,
            edition: self.edition@,
            sig: self.sig@,
            last_run: self.last_run,
        }
    }
}

impl View for TrialFile {
    type V = TrialFileView;

    open spec fn view(&self) -> TrialFileView {
        TrialFileView {
            v: self.v,
            machine_id: self.machine_id@,
            trial_started: self.trial_started,
            last_run: self.last_run,
        }
    }
}

/// The views of an optional license record.
pub open spec fn license_view(l: Option<LicenseFile>) -> Option<LicenseFileView> {
    match l {
        Some(f) => Some(f@),
        None => None,
    }
}

/// The views of an optional trial record.
pub open spec fn trial_view(t: Option<TrialFile>) -> Option<TrialFileView> {
    match t {
        Some(f) => Some(f@),
        None => None,
    }
}

// ---------------------------------------------------------------------------
// Status
// ---------------------------------------------------------------------------

/// The license status shown to the user.
#[derive(Debug, Clone, PartialEq, Eq)]
pub enum LicenseStatus {
    /// No license and no trial started.
    Unlicensed { machine_id: String },
    /// Trial in progress.
    Trial { machine_id: String, days_left: i64 },
    /// Trial period has ended, no license.
    TrialExpired { machine_id: String },
    /// Valid license but past expiry.
    Expired { machine_id: String, edition: String },
    /// Fully licensed and active.
    Active {
        machine_id: String,
        edition: String,
        expiry_str: String,
        /// `None` for a lifetime license.
        days_left: Option<i64>,
    },
    /// The system clock appears to have been rolled back.
    TimeManipulation { machine_id: String },
}

/// The mathematical value of a [`LicenseStatus`].
pub enum StatusView {
    Unlicensed { machine_id: Seq<char> },
    Trial { machine_id: Seq<char>, days_left: i64 },
    TrialExpired { machine_id: Seq<char> },
    Expired { machine_id: Seq<char>, edition: Seq<char> },
    Active {
        machine_id: Seq<char>,
        edition: Seq<char>,
        expiry_str: Seq<char>,
        days_left: Option<i64>,
    },
    TimeManipulation { machine_id: Seq<char> },
}

impl View for LicenseStatus {
    type V = StatusView;

    open spec fn view(&self) -> StatusView {
        match self {
            LicenseStatus::Unlicensed { machine_id } => StatusView::Unlicensed {
                machine_id: machine_id@,
            },
            LicenseStatus::Trial { machine_id, days_left } => StatusView::Trial {
                machine_id: machine_id@,
                days_left: *days_left,
            },
            LicenseStatus::TrialExpired { machine_id } => StatusView::TrialExpired {
                machine_id: machine_id@,
            },
            LicenseStatus::Expired { machine_id, edition } => StatusView::Expired {
                machine_id: machine_id@,
                edition: edition@,
            },
            LicenseStatus::Active { machine_id, edition, expiry_str, days_left } =>
                StatusView::Active {
                machine_id: machine_id@,
                edition: edition@,
                expiry_str: expiry_str@,
                days_left: *days_left,
            },
            LicenseStatus::TimeManipulation { machine_id } => StatusView::TimeManipulation {
                machine_id: machine_id@,
            },
        }
    }
}

// ---------------------------------------------------------------------------
// Small formatting rules
// ---------------------------------------------------------------------------

/// The signed text of a license: `HHPOS|{machine_id}|{expiry}|{edition}`.
pub open spec fn payload_text(machine_id: Seq<char>, expiry: u64, edition: Seq<char>) -> Seq<char> {
    seq!['H', 'H', 'P', 'O', 'S', '|'] + machine_id + seq!['|'] + decimal(expiry as nat) + seq!['|']
        + edition
}

/// Builds the signed text of a license.
pub fn build_payload(machine_id: &str, expiry: u64, edition: &str) -> (res: String)
    ensures
        res@ == payload_text(machine_id@, expiry, edition@),
{
    let mut out: Vec<char> = Vec::new();
    out.push('H');
    out.push('H');
    out.push('P');
    out.push('O');
    out.push('S');
    out.push('|');
    append_chars(&mut out, chars_of(machine_id).as_slice());
    out.push('|');
    append_chars(&mut out, decimal_chars(expiry).as_slice());
    out.push('|');
    append_chars(&mut out, chars_of(edition).as_slice());
    string_of(out.as_slice())
}

/// How the expiry is described: lifetime, expired, or the whole days left.
pub open spec fn expiry_text(expiry: u64, now: u64) -> Seq<char> {
    if expiry == 0 {
        "Vĩnh viễn"@
    } else if now >= expiry {
        "Đã hết hạn"@
    } else {
        "Còn "@ + decimal(((expiry - now) / 86400) as nat) + " ngày"@
    }
}

/// Describes the expiry of a license at time `now`.
pub fn format_expiry(expiry: u64, now: u64) -> (res: String)
    ensures
        res@ == expiry_text(expiry, now),
{
    if expiry == 0 {
        return "Vĩnh viễn".to_owned();
    }
    if now >= expiry {
        return "Đã hết hạn".to_owned();
    }
    let days = (expiry - now) / SECS_PER_DAY;
    let mut out = chars_of("Còn ");
    append_chars(&mut out, decimal_chars(days).as_slice());
    append_chars(&mut out, chars_of(" ngày").as_slice());
    string_of(out.as_slice())
}

/// `x` taken modulo 2^64 into the range of `i64`.
pub open spec fn wrap_i64(x: int) -> int {
    if x > i64::MAX {
        x - 0x1_0000_0000_0000_0000
    } else if x < i64::MIN {
        x + 0x1_0000_0000_0000_0000
    } else {
        x
    }
}

/// Integer division rounding toward zero, as Rust's `/` on signed integers.
pub open spec fn div_toward_zero(x: int, d: int) -> int {
    if x >= 0 {
        x / d
    } else {
        -((-x) / d)
    }
}

/// Whole days from `now` to `expiry`, computed as `(expiry as i64 - now as i64) / 86400`
/// with the subtraction wrapping on overflow.
pub open spec fn days_until(expiry: u64, now: u64) -> i64 {
    div_toward_zero(wrap_i64(expiry - now), 86400) as i64
}

/// Whole days from `now` to `expiry`, as a signed number.
pub fn days_left_until(expiry: u64, now: u64) -> (res: i64)
    ensures
        res == days_until(expiry, now),
{
    if expiry >= now {
        let d = expiry - now;
        if d <= 0x7fff_ffff_ffff_ffff {
            (d / SECS_PER_DAY) as i64
        } else {
            let m = (u64::MAX - d) + 1;
            0 - ((m / SECS_PER_DAY) as i64)
        }
    } else {
        let d = now - expiry;
        if d <= 0x8000_0000_0000_0000 {
            0 - ((d / SECS_PER_DAY) as i64)
        } else {
            let m = (u64::MAX - d) + 1;
            (m / SECS_PER_DAY) as i64
        }
    }
}

/// Whole trial days that have passed since `started`.
pub open spec fn elapsed_days(now: u64, started: u64) -> int {
    (if now >= started {
        now - started
    } else {
        0
    }) / 86400
}

/// Trial days left: the trial length minus the whole days passed.
pub open spec fn trial_days_left(now: u64, started: u64) -> int {
    7 - elapsed_days(now, started)
}

fn trial_days_left_exec(now: u64, started: u64) -> (res: i64)
    ensures
        res == trial_days_left(now, started),
{
    let elapsed = now.saturating_sub(started) / SECS_PER_DAY;
    (TRIAL_DAYS as i64) - (elapsed as i64)
}

// ---------------------------------------------------------------------------
// The last-run record (`runtime.enc`)
// ---------------------------------------------------------------------------

/// The plaintext of the last-run record: the time in decimal, as UTF-8.
pub open spec fn last_run_text(ts: u64) -> Seq<u8> {
    encode_utf8(decimal(ts as nat))
}

/// The time held by a decrypted last-run record: valid UTF-8 that, trimmed,
/// is a decimal `u64`.
pub open spec fn last_run_value(plaintext: Seq<u8>) -> Option<u64> {
    if valid_utf8(plaintext) {
        parse_u64(trim(decode_utf8(plaintext)))
    } else {
        None
    }
}

/// The plaintext of the last-run record for time `ts`.
pub fn last_run_plaintext(ts: u64) -> (res: Vec<u8>)
    ensures
        res@ == last_run_text(ts),
{
    let digits = string_of(decimal_chars(ts).as_slice());
    utf8_bytes(digits.as_str())
}

/// Reads the time from a decrypted last-run record.
pub fn parse_last_run(plaintext: &[u8]) -> (res: Option<u64>)
    ensures
        res == last_run_value(plaintext@),
{
    let text = match utf8_decode(plaintext) {
        Some(t) => t,
        None => return None,
    };
    let trimmed = trim_chars(chars_of(text.as_str()).as_slice());
    parse_u64_chars(trimmed.as_slice())
}

/// Encrypts or decrypts the contents of a license, trial or last-run file with
/// the key of the machine.
pub fn file_cipher(machine_id: &str, data: &[u8]) -> (res: Vec<u8>)
    ensures
        res@ == xor_stream(data@, file_key(machine_id@)),
{
    let key = derive_file_key(machine_id);
    xor_crypt(data, &key)
}

// ---------------------------------------------------------------------------
// Key normalization
// ---------------------------------------------------------------------------

/// A license key as typed or pasted, put into canonical form: white space
/// removed; and when it has five `|`-separated fields, the prefix upper-cased,
/// the middle fields trimmed and the hyphens removed from the signature.
pub open spec fn normalized_key(key: Seq<char>) -> Seq<char> {
    let cleaned = without_white_space(key);
    let parts = split_fields(cleaned, '|', 5);
    if parts.len() != 5 {
        cleaned
    } else {
        uppercased(trim(parts[0])) + seq!['|'] + trim(parts[1]) + seq!['|'] + trim(parts[2])
            + seq!['|'] + trim(parts[3]) + seq!['|'] + without_char(parts[4], '-')
    }
}

/// The canonical chars of a license key.
pub fn normalize_key_chars(key: &[char]) -> (res: Vec<char>)
    ensures
        res@ == normalized_key(key@),
{
    let cleaned = remove_white_space(key);
    let parts = split_n(cleaned.as_slice(), '|', 5);
    if parts.len() != 5 {
        return cleaned;
    }
    let ghost pv = fields_view(parts@);
    assert(pv[0] == parts@[0]@ && pv[1] == parts@[1]@ && pv[2] == parts@[2]@ && pv[3]
        == parts@[3]@ && pv[4] == parts@[4]@);
    let mut out = uppercase_chars(trim_chars(parts[0].as_slice()).as_slice());
    out.push('|');
    append_chars(&mut out, trim_chars(parts[1].as_slice()).as_slice());
    out.push('|');
    append_chars(&mut out, trim_chars(parts[2].as_slice()).as_slice());
    out.push('|');
    append_chars(&mut out, trim_chars(parts[3].as_slice()).as_slice());
    out.push('|');
    append_chars(&mut out, remove_char(parts[4].as_slice(), '-').as_slice());
    out
}

/// Puts a license key into canonical form.
pub fn normalize_license_key(key: &str) -> (res: String)
    ensures
        res@ == normalized_key(key@),
{
    let chars = chars_of(key);
    string_of(normalize_key_chars(chars.as_slice()).as_slice())
}

// ---------------------------------------------------------------------------
// Launch-time check
// ---------------------------------------------------------------------------

/// What the launch-time check decides: the status to show and the records to
/// write back (the license or trial with `last_run` updated, and whether the
/// last-run record is rewritten with the current time).
#[derive(Debug, Clone, PartialEq, Eq)]
pub struct LicenseCheck {
    pub status: LicenseStatus,
    pub save_license: Option<LicenseFile>,
    pub save_trial: Option<TrialFile>,
    pub record_last_run: bool,
}

/// The mathematical value of a [`LicenseCheck`].
pub struct LicenseCheckView {
    pub status: StatusView,
    pub save_license: Option<LicenseFileView>,
    pub save_trial: Option<TrialFileView>,
    pub record_last_run: bool,
}

impl View for LicenseCheck {
    type V = LicenseCheckView;

    open spec fn view(&self) -> LicenseCheckView {
        LicenseCheckView {
            status: self.status@,
            save_license: license_view(self.save_license),
            save_trial: trial_view(self.save_trial),
            record_last_run: self.record_last_run,
        }
    }
}

/// The stored last run lies more than the tolerance after `now`.
pub open spec fn clock_rolled_back(now: u64, last_run: Option<u64>) -> bool {
    match last_run {
        Some(lr) => lr > now + 300,
        None => false,
    }
}

/// A license record is in force: it is present, it names this machine and
/// its signature was found valid.
pub open spec fn license_in_force(machine_id: Seq<char>, license: Option<LicenseFileView>, signed: bool) -> bool {
    match license {
        Some(l) => l.machine_id == machine_id && signed,
        None => false,
    }
}

/// A trial record of this machine is present.
pub open spec fn trial_of_machine(machine_id: Seq<char>, trial: Option<TrialFileView>) -> bool {
    match trial {
        Some(t) => t.machine_id == machine_id,
        None => false,
    }
}

/// Days left of a license that has not expired: `None` for a lifetime one.
pub open spec fn license_days_left(expiry: u64, now: u64) -> Option<i64> {
    if expiry == 0 {
        None
    } else {
        Some(days_until(expiry, now))
    }
}

/// The status of a license in force at time `now`.
pub open spec fn license_status(machine_id: Seq<char>, l: LicenseFileView, now: u64) -> StatusView {
    if l.expiry != 0 && now > l.expiry {
        StatusView::Expired { machine_id, edition: l.edition }
    } else {
        StatusView::Active {
            machine_id,
            edition: l.edition,
            expiry_str: expiry_text(l.expiry, now),
            days_left: license_days_left(l.expiry, now),
        }
    }
}

/// The status of a trial of this machine at time `now`.
pub open spec fn trial_status(machine_id: Seq<char>, t: TrialFileView, now: u64) -> StatusView {
    if trial_days_left(now, t.trial_started) > 0 {
        StatusView::Trial { machine_id, days_left: trial_days_left(now, t.trial_started) as i64 }
    } else {
        StatusView::TrialExpired { machine_id }
    }
}

/// The launch-time decision. In order: a clock rollback is reported and nothing
/// is written; a license in force is reported expired or active, and saved
/// back with `last_run = now` (its `last_run` is updated at every launch); a trial of this machine is reported
/// running or ended and saved back with `last_run = now`; otherwise the machine
/// is unlicensed. Except after a rollback, the last run is recorded.
pub open spec fn checked_status(
    machine_id: Seq<char>,
    now: u64,
    last_run: Option<u64>,
    license: Option<LicenseFileView>,
    license_signed: bool,
    trial: Option<TrialFileView>,
) -> LicenseCheckView {
    if clock_rolled_back(now, last_run) {
        LicenseCheckView {
            status: StatusView::TimeManipulation { machine_id },
            save_license: None,
            save_trial: None,
            record_last_run: false,
        }
    } else if license_in_force(machine_id, license, license_signed) {
        let l = license->0;
        LicenseCheckView {
            status: license_status(machine_id, l, now),
            save_license: Some(LicenseFileView { last_run: now, ..l }),
            save_trial: None,
            record_last_run: true,
        }
    } else if trial_of_machine(machine_id, trial) {
        let t = trial->0;
        LicenseCheckView {
            status: trial_status(machine_id, t, now),
            save_license: None,
            save_trial: Some(TrialFileView { last_run: now, ..t }),
            record_last_run: true,
        }
    } else {
        LicenseCheckView {
            status: StatusView::Unlicensed { machine_id },
            save_license: None,
            save_trial: None,
            record_last_run: true,
        }
    }
}

/// Decides the launch-time status from the machine identifier, the time, the
/// stored last run, the stored license together with whether its signature
/// is valid, and the stored trial.
pub fn resolve_license_status(
    machine_id: &str,
    now: u64,
    last_run: Option<u64>,
    license: Option<LicenseFile>,
    license_signed: bool,
    trial: Option<TrialFile>,
) -> (res: LicenseCheck)
    requires
        last_run is Some ==> now + TIME_TOLERANCE_SECS <= u64::MAX,
    ensures
        res@ == checked_status(
            machine_id@,
            now,
            last_run,
            license_view(license),
            license_signed,
            trial_view(trial),
        ),
{
    if let Some(lr) = last_run {
        if lr > now + TIME_TOLERANCE_SECS {
            return LicenseCheck {
                status: LicenseStatus::TimeManipulation { machine_id: machine_id.to_owned() },
                save_license: None,
                save_trial: None,
                record_last_run: false,
            };
        }
    }
    if let Some(lic) = license {
        if license_signed && same_text(lic.machine_id.as_str(), machine_id) {
            if lic.expiry != 0 && now > lic.expiry {
                let status = LicenseStatus::Expired {
                    machine_id: machine_id.to_owned(),
                    edition: lic.edition.as_str().to_owned(),
                };
                let updated = LicenseFile {
                    v: lic.v,
                    machine_id: lic.machine_id,
                    expiry: lic.expiry,
                    edition: lic.edition,
                    sig: lic.sig,
                    last_run: now,
                };
                return LicenseCheck {
                    status,
                    save_license: Some(updated),
                    save_trial: None,
                    record_last_run: true,
                };
            }
            let days_left = if lic.expiry == 0 {
                None
            } else {
                Some(days_left_until(lic.expiry, now))
            };
            let expiry_str = format_expiry(lic.expiry, now);
            let status = LicenseStatus::Active {
                machine_id: machine_id.to_owned(),
                edition: lic.edition.as_str().to_owned(),
                expiry_str,
                days_left,
            };
            let updated = LicenseFile {
                v: lic.v,
                machine_id: lic.machine_id,
                expiry: lic.expiry,
                edition: lic.edition,
                sig: lic.sig,
                last_run: now,
            };
            return LicenseCheck {
                status,
                save_license: Some(updated),
                save_trial: None,
                record_last_run: true,
            };
        }
    }
    if let Some(t) = trial {
        if same_text(t.machine_id.as_str(), machine_id) {
            let days_left = trial_days_left_exec(now, t.trial_started);
            let updated = TrialFile {
                v: t.v,
                machine_id: t.machine_id,
                trial_started: t.trial_started,
                last_run: now,
            };
            let status = if days_left > 0 {
                LicenseStatus::Trial { machine_id: machine_id.to_owned(), days_left }
            } else {
                LicenseStatus::TrialExpired { machine_id: machine_id.to_owned() }
            };
            return LicenseCheck {
                status,
                save_license: None,
                save_trial: Some(updated),
                record_last_run: true,
            };
        }
    }
    LicenseCheck {
        status: LicenseStatus::Unlicensed { machine_id: machine_id.to_owned() },
        save_license: None,
        save_trial: None,
        record_last_run: true,
    }
}

/// Whether the signature of a stored license checks out under `public_key`.
pub open spec fn license_signature_ok(public_key: Seq<u8>, license: Option<LicenseFileView>) -> bool {
    match license {
        Some(l) => signature_accepted(
            public_key,
            payload_text(l.machine_id, l.expiry, l.edition),
            l.sig,
        ),
        None => false,
    }
}

fn license_signed(public_key: &[u8; 32], machine_id: &str, license: &Option<LicenseFile>) -> (res: bool)
    ensures
        license_in_force(machine_id@, license_view(*license), res) == license_in_force(
            machine_id@,
            license_view(*license),
            license_signature_ok(public_key@, license_view(*license)),
        ),
{
    match license {
        Some(lic) => {
            if !same_text(lic.machine_id.as_str(), machine_id) {
                return false;
            }
            let payload = build_payload(lic.machine_id.as_str(), lic.expiry, lic.edition.as_str());
            verify_signature(public_key, payload.as_str(), lic.sig.as_str())
        },
        None => false,
    }
}

/// The launch-time check: the stored license counts only if its signature
/// checks out under `public_key`.
pub fn check_license(
    public_key: &[u8; 32],
    machine_id: &str,
    now: u64,
    last_run: Option<u64>,
    license: Option<LicenseFile>,
    trial: Option<TrialFile>,
) -> (res: LicenseCheck)
    requires
        last_run is Some ==> now + TIME_TOLERANCE_SECS <= u64::MAX,
    ensures
        res@ == checked_status(
            machine_id@,
            now,
            last_run,
            license_view(license),
            license_signature_ok(public_key@, license_view(license)),
            trial_view(trial),
        ),
{
    let signed = license_signed(public_key, machine_id, &license);
    resolve_license_status(machine_id, now, last_run, license, signed, trial)
}

// ---------------------------------------------------------------------------
// Activation
// ---------------------------------------------------------------------------

/// The fields of a license key: `HHPOS|{machine}|{expiry}|{edition}|{signature}`.
#[derive(Debug, Clone, PartialEq, Eq)]
pub struct LicenseKey {
    pub machine: String,
    pub expiry: u64,
    pub edition: String,
    pub signature: String,
}

/// The mathematical value of a [`LicenseKey`].
pub struct LicenseKeyView {
    pub machine: Seq<char>,
    pub expiry: u64,
    pub edition: Seq<char>,
    pub signature: Seq<char>,
}

impl View for LicenseKey {
    type V = LicenseKeyView;

    open spec fn view(&self) -> LicenseKeyView {
        LicenseKeyView {
            machine: self.machine@,
            expiry: self.expiry,
            edition: self.edition@,
            signature: self.signature@,
        }
    }
}

/// Why a license key was refused.
#[derive(Debug, Clone, PartialEq, Eq)]
pub enum ActivationError {
    /// Not of the form `HHPOS|MachineID|Expiry|Edition|Signature`.
    InvalidFormat,
    /// The expiry field is not a decimal number.
    InvalidExpiry,
    /// The key names another machine.
    WrongMachine { machine_id: String, key_machine: String },
    /// The edition is not one of FREE, BASIC, PRO, LIFETIME.
    InvalidEdition,
    /// The signature does not check out.
    InvalidSignature,
    /// The license expired before it was activated.
    ExpiredBeforeActivation,
}

/// The mathematical value of an [`ActivationError`].
pub enum ActivationErrorView {
    InvalidFormat,
    InvalidExpiry,
    WrongMachine { machine_id: Seq<char>, key_machine: Seq<char> },
    InvalidEdition,
    InvalidSignature,
    ExpiredBeforeActivation,
}

impl View for ActivationError {
    type V = ActivationErrorView;

    open spec fn view(&self) -> ActivationErrorView {
        match self {
            ActivationError::InvalidFormat => ActivationErrorView::InvalidFormat,
            ActivationError::InvalidExpiry => ActivationErrorView::InvalidExpiry,
            ActivationError::WrongMachine { machine_id, key_machine } =>
                ActivationErrorView::WrongMachine {
                machine_id: machine_id@,
                key_machine: key_machine@,
            },
            ActivationError::InvalidEdition => ActivationErrorView::InvalidEdition,
            ActivationError::InvalidSignature => ActivationErrorView::InvalidSignature,
            ActivationError::ExpiredBeforeActivation => ActivationErrorView::ExpiredBeforeActivation,
        }
    }
}

/// The message shown when a license key is refused.
pub open spec fn activation_error_text(e: ActivationErrorView) -> Seq<char> {
    match e {
        ActivationErrorView::InvalidFormat =>
            "Định dạng key không hợp lệ.\nKey phải có dạng: HHPOS|MachineID|Expiry|Edition|Signature"@,
        ActivationErrorView::InvalidExpiry => "Key bị lỗi: trường expiry không hợp lệ."@,
        ActivationErrorView::WrongMachine { machine_id, key_machine } =>
            "Key này không dành cho máy của bạn.\nMã máy của bạn  : "@ + machine_id
                + "\nMã máy trong key: "@ + key_machine,
        ActivationErrorView::InvalidEdition =>
            "Edition không hợp lệ. Phải là: FREE, BASIC, PRO hoặc LIFETIME."@,
        ActivationErrorView::InvalidSignature =>
            "Chữ ký số không hợp lệ. Key có thể đã bị chỉnh sửa hoặc bị lỗi."@,
        ActivationErrorView::ExpiredBeforeActivation =>
            "License này đã hết hạn từ trước khi kích hoạt."@,
    }
}

impl ActivationError {
    /// The message shown for this refusal.
    pub fn message(&self) -> (res: String)
        ensures
            res@ == activation_error_text(self@),
    {
        match self {
            ActivationError::InvalidFormat =>
                "Định dạng key không hợp lệ.\nKey phải có dạng: HHPOS|MachineID|Expiry|Edition|Signature".to_owned(),
            ActivationError::InvalidExpiry => "Key bị lỗi: trường expiry không hợp lệ.".to_owned(),
            ActivationError::WrongMachine { machine_id, key_machine } => {
                let mut out = chars_of("Key này không dành cho máy của bạn.\nMã máy của bạn  : ");
                append_chars(&mut out, chars_of(machine_id.as_str()).as_slice());
                append_chars(&mut out, chars_of("\nMã máy trong key: ").as_slice());
                append_chars(&mut out, chars_of(key_machine.as_str()).as_slice());
                string_of(out.as_slice())
            },
            ActivationError::InvalidEdition =>
                "Edition không hợp lệ. Phải là: FREE, BASIC, PRO hoặc LIFETIME.".to_owned(),
            ActivationError::InvalidSignature =>
                "Chữ ký số không hợp lệ. Key có thể đã bị chỉnh sửa hoặc bị lỗi.".to_owned(),
            ActivationError::ExpiredBeforeActivation =>
                "License này đã hết hạn từ trước khi kích hoạt.".to_owned(),
        }
    }
}

/// A successful activation: the license record to store and the status.
#[derive(Debug, Clone, PartialEq, Eq)]
pub struct Activation {
    pub license: LicenseFile,
    pub status: LicenseStatus,
}

/// The mathematical value of an [`Activation`].
pub struct ActivationView {
    pub license: LicenseFileView,
    pub status: StatusView,
}

impl View for Activation {
    type V = ActivationView;

    open spec fn view(&self) -> ActivationView {
        ActivationView { license: self.license@, status: self.status@ }
    }
}

/// The views of an activation outcome.
pub open spec fn activation_view(r: Result<Activation, ActivationError>) -> Result<ActivationView, ActivationErrorView> {
    match r {
        Ok(a) => Ok(a@),
        Err(e) => Err(e@),
    }
}

/// The views of a parsed key, or of the refusal.
pub open spec fn key_view(r: Result<LicenseKey, ActivationError>) -> Result<LicenseKeyView, ActivationErrorView> {
    match r {
        Ok(k) => Ok(k@),
        Err(e) => Err(e@),
    }
}

/// The literal prefix of every license key.
pub open spec fn key_prefix() -> Seq<char> {
    seq!['H', 'H', 'P', 'O', 'S']
}

/// The editions a license can carry.
pub open spec fn is_known_edition(e: Seq<char>) -> bool {
    e == "FREE"@ || e == "BASIC"@ || e == "PRO"@ || e == "LIFETIME"@
}

/// The fields of a key after normalization: five fields with the prefix
/// `HHPOS` and a decimal expiry; the machine, edition and signature trimmed
/// and the edition upper-cased.
pub open spec fn parsed_key(key: Seq<char>) -> Result<LicenseKeyView, ActivationErrorView> {
    let parts = split_fields(normalized_key(key), '|', 5);
    if parts.len() != 5 || parts[0] != key_prefix() {
        Err(ActivationErrorView::InvalidFormat)
    } else {
        match parse_u64(parts[2]) {
            None => Err(ActivationErrorView::InvalidExpiry),
            Some(expiry) => Ok(
                LicenseKeyView {
                    machine: trim(parts[1]),
                    expiry,
                    edition: uppercased(trim(parts[3])),
                    signature: trim(parts[4]),
                },
            ),
        }
    }
}

/// Whether `s` is the key prefix `HHPOS`.
pub(crate) fn is_prefix_chars(s: &[char]) -> (res: bool)
    ensures
        res == (s@ == key_prefix()),
{
    let mut p: Vec<char> = Vec::new();
    p.push('H');
    p.push('H');
    p.push('P');
    p.push('O');
    p.push('S');
    assert(p@ == key_prefix());
    crate::text::same_chars(s, p.as_slice())
}

/// Splits a license key, after normalization, into its fields.
pub fn parse_license_key(key: &str) -> (res: Result<LicenseKey, ActivationError>)
    ensures
        key_view(res) == parsed_key(key@),
{
    let normalized = normalize_key_chars(chars_of(key).as_slice());
    let parts = split_n(normalized.as_slice(), '|', 5);
    let ghost pv = fields_view(parts@);
    if parts.len() != 5 {
        return Err(ActivationError::InvalidFormat);
    }
    assert(pv[0] == parts@[0]@ && pv[1] == parts@[1]@ && pv[2] == parts@[2]@ && pv[3]
        == parts@[3]@ && pv[4] == parts@[4]@);
    if !is_prefix_chars(parts[0].as_slice()) {
        return Err(ActivationError::InvalidFormat);
    }
    let machine = trim_chars(parts[1].as_slice());
    let expiry = match parse_u64_chars(parts[2].as_slice()) {
        Some(e) => e,
        None => return Err(ActivationError::InvalidExpiry),
    };
    let edition = uppercase_chars(trim_chars(parts[3].as_slice()).as_slice());
    let signature = trim_chars(parts[4].as_slice());
    Ok(
        LicenseKey {
            machine: string_of(machine.as_slice()),
            expiry,
            edition: string_of(edition.as_slice()),
            signature: string_of(signature.as_slice()),
        },
    )
}

/// Whether `edition` is one of the known editions.
pub fn is_valid_edition(edition: &str) -> (res: bool)
    ensures
        res == is_known_edition(edition@),
{
    same_text(edition, "FREE") || same_text(edition, "BASIC") || same_text(edition, "PRO")
        || same_text(edition, "LIFETIME")
}

/// The outcome of activating a parsed key on machine `machine_id` at `now`,
/// given whether its signature checks out: the key must name this machine
/// (ASCII case aside), carry a known edition, be signed, and not be expired.
/// The stored license then names this machine and records `now` as last run.
pub open spec fn activation_result(
    key: LicenseKeyView,
    machine_id: Seq<char>,
    now: u64,
    signature_ok: bool,
) -> Result<ActivationView, ActivationErrorView> {
    if !eq_ignoring_ascii_case(key.machine, machine_id) {
        Err(ActivationErrorView::WrongMachine { machine_id, key_machine: key.machine })
    } else if !is_known_edition(key.edition) {
        Err(ActivationErrorView::InvalidEdition)
    } else if !signature_ok {
        Err(ActivationErrorView::InvalidSignature)
    } else if key.expiry != 0 && now > key.expiry {
        Err(ActivationErrorView::ExpiredBeforeActivation)
    } else {
        Ok(
            ActivationView {
                license: LicenseFileView {
                    v: 1,
                    machine_id,
                    expiry: key.expiry,
                    edition: key.edition,
                    sig: key.signature,
                    last_run: now,
                },
                status: StatusView::Active {
                    machine_id,
                    edition: key.edition,
                    expiry_str: expiry_text(key.expiry, now),
                    days_left: license_days_left(key.expiry, now),
                },
            },
        )
    }
}

/// Completes the activation of a parsed key, given whether its signature
/// checks out.
pub fn complete_activation(key: LicenseKey, machine_id: &str, now: u64, signature_ok: bool) -> (res:
    Result<Activation, ActivationError>)
    ensures
        activation_view(res) == activation_result(key@, machine_id@, now, signature_ok),
{
    if !eq_ignore_ascii_case(chars_of(key.machine.as_str()).as_slice(), chars_of(machine_id).as_slice()) {
        return Err(
            ActivationError::WrongMachine { machine_id: machine_id.to_owned(), key_machine: key.machine },
        );
    }
    if !is_valid_edition(key.edition.as_str()) {
        return Err(ActivationError::InvalidEdition);
    }
    if !signature_ok {
        return Err(ActivationError::InvalidSignature);
    }
    if key.expiry != 0 && now > key.expiry {
        return Err(ActivationError::ExpiredBeforeActivation);
    }
    let days_left = if key.expiry == 0 {
        None
    } else {
        Some(days_left_until(key.expiry, now))
    };
    let status = LicenseStatus::Active {
        machine_id: machine_id.to_owned(),
        edition: key.edition.as_str().to_owned(),
        expiry_str: format_expiry(key.expiry, now),
        days_left,
    };
    let license = LicenseFile {
        v: 1,
        machine_id: machine_id.to_owned(),
        expiry: key.expiry,
        edition: key.edition,
        sig: key.signature,
        last_run: now,
    };
    Ok(Activation { license, status })
}

/// The whole activation: parse the key, then complete it with the signature
/// of its payload checked under `public_key`.
pub open spec fn activation_outcome(
    public_key: Seq<u8>,
    key: Seq<char>,
    machine_id: Seq<char>,
    now: u64,
) -> Result<ActivationView, ActivationErrorView> {
    match parsed_key(key) {
        Err(e) => Err(e),
        Ok(k) => activation_result(
            k,
            machine_id,
            now,
            signature_accepted(public_key, payload_text(k.machine, k.expiry, k.edition), k.signature),
        ),
    }
}

/// Activates the app with a license key string of the form
/// `HHPOS|{machine_id}|{expiry_unix}|{edition}|{base64_sig}`.
pub fn activate_license(public_key: &[u8; 32], key: &str, machine_id: &str, now: u64) -> (res: Result<
    Activation,
    ActivationError,
>)
    ensures
        activation_view(res) == activation_outcome(public_key@, key@, machine_id@, now),
{
    let parsed = match parse_license_key(key) {
        Ok(k) => k,
        Err(e) => return Err(e),
    };
    let payload = build_payload(parsed.machine.as_str(), parsed.expiry, parsed.edition.as_str());
    let signature_ok = verify_signature(public_key, payload.as_str(), parsed.signature.as_str());
    complete_activation(parsed, machine_id, now, signature_ok)
}

// ---------------------------------------------------------------------------
// Trial
// ---------------------------------------------------------------------------

/// Why a trial cannot be started.
#[derive(Debug, Clone, Copy, PartialEq, Eq)]
pub enum TrialError {
    /// This machine already holds a valid license.
    AlreadyLicensed,
    /// A trial is running, with this many days left.
    TrialInProgress { days_left: i64 },
    /// The trial has been used up.
    TrialUsed,
}

/// The decimal text of a signed number, with `-` before a negative one.
pub open spec fn signed_decimal(i: int) -> Seq<char> {
    if i < 0 {
        seq!['-'] + decimal((-i) as nat)
    } else {
        decimal(i as nat)
    }
}

/// The message shown when a trial cannot be started.
pub open spec fn trial_error_text(e: TrialError) -> Seq<char> {
    match e {
        TrialError::AlreadyLicensed => "Máy này đã có bản quyền hợp lệ. Không cần dùng thử."@,
        TrialError::TrialInProgress { days_left } =>
            "Bạn đang trong thời gian dùng thử. Còn "@ + signed_decimal(days_left as int) + " ngày."@,
        TrialError::TrialUsed => "Thời gian dùng thử đã hết. Vui lòng liên hệ để mua bản quyền."@,
    }
}

fn signed_decimal_chars(i: i64) -> (res: Vec<char>)
    ensures
        res@ == signed_decimal(i as int),
{
    if i >= 0 {
        decimal_chars(i as u64)
    } else {
        let magnitude: u64 = if i == i64::MIN {
            0x8000_0000_0000_0000
        } else {
            (0 - i) as u64
        };
        let mut out: Vec<char> = Vec::new();
        out.push('-');
        append_chars(&mut out, decimal_chars(magnitude).as_slice());
        out
    }
}

impl TrialError {
    /// The message shown for this refusal.
    pub fn message(&self) -> (res: String)
        ensures
            res@ == trial_error_text(*self),
    {
        match self {
            TrialError::AlreadyLicensed => "Máy này đã có bản quyền hợp lệ. Không cần dùng thử.".to_owned(),
            TrialError::TrialInProgress { days_left } => {
                let mut out = chars_of("Bạn đang trong thời gian dùng thử. Còn ");
                append_chars(&mut out, signed_decimal_chars(*days_left).as_slice());
                append_chars(&mut out, chars_of(" ngày.").as_slice());
                string_of(out.as_slice())
            },
            TrialError::TrialUsed =>
                "Thời gian dùng thử đã hết. Vui lòng liên hệ để mua bản quyền.".to_owned(),
        }
    }
}

/// A started trial: the record to store and the status.
#[derive(Debug, Clone, PartialEq, Eq)]
pub struct TrialStart {
    pub trial: TrialFile,
    pub status: LicenseStatus,
}

/// The mathematical value of a [`TrialStart`].
pub struct TrialStartView {
    pub trial: TrialFileView,
    pub status: StatusView,
}

impl View for TrialStart {
    type V = TrialStartView;

    open spec fn view(&self) -> TrialStartView {
        TrialStartView { trial: self.trial@, status: self.status@ }
    }
}

/// The views of a trial-start outcome.
pub open spec fn trial_start_view(r: Result<TrialStart, TrialError>) -> Result<TrialStartView, TrialError> {
    match r {
        Ok(t) => Ok(t@),
        Err(e) => Err(e),
    }
}

/// Starting the trial: refused while a license is in force, refused once a
/// trial of this machine exists (running or used up); otherwise a trial
/// starting at `now` with the full length left.
pub open spec fn trial_start_result(
    machine_id: Seq<char>,
    now: u64,
    license: Option<LicenseFileView>,
    license_signed: bool,
    trial: Option<TrialFileView>,
) -> Result<TrialStartView, TrialError> {
    if license_in_force(machine_id, license, license_signed) {
        Err(TrialError::AlreadyLicensed)
    } else if trial_of_machine(machine_id, trial) {
        let elapsed = elapsed_days(now, trial->0.trial_started);
        if elapsed < 7 {
            Err(TrialError::TrialInProgress { days_left: (7 - elapsed) as i64 })
        } else {
            Err(TrialError::TrialUsed)
        }
    } else {
        Ok(
            TrialStartView {
                trial: TrialFileView { v: 1, machine_id, trial_started: now, last_run: now },
                status: StatusView::Trial { machine_id, days_left: 7 },
            },
        )
    }
}

/// Decides a trial start, given whether the stored license's signature is valid.
pub fn resolve_trial_start(
    machine_id: &str,
    now: u64,
    license: &Option<LicenseFile>,
    license_signed: bool,
    trial: &Option<TrialFile>,
) -> (res: Result<TrialStart, TrialError>)
    ensures
        trial_start_view(res) == trial_start_result(
            machine_id@,
            now,
            license_view(*license),
            license_signed,
            trial_view(*trial),
        ),
{
    if let Some(lic) = license {
        if license_signed && same_text(lic.machine_id.as_str(), machine_id) {
            return Err(TrialError::AlreadyLicensed);
        }
    }
    if let Some(t) = trial {
        if same_text(t.machine_id.as_str(), machine_id) {
            let elapsed = now.saturating_sub(t.trial_started) / SECS_PER_DAY;
            if elapsed < TRIAL_DAYS {
                let left = (TRIAL_DAYS as i64) - (elapsed as i64);
                return Err(TrialError::TrialInProgress { days_left: left });
            }
            return Err(TrialError::TrialUsed);
        }
    }
    let trial = TrialFile { v: 1, machine_id: machine_id.to_owned(), trial_started: now, last_run: now };
    Ok(
        TrialStart {
            trial,
            status: LicenseStatus::Trial { machine_id: machine_id.to_owned(), days_left: 7 },
        },
    )
}

/// Starts the free trial (once per machine); a stored license counts only if
/// its signature checks out under `public_key`.
pub fn start_trial(
    public_key: &[u8; 32],
    machine_id: &str,
    now: u64,
    license: &Option<LicenseFile>,
    trial: &Option<TrialFile>,
) -> (res: Result<TrialStart, TrialError>)
    ensures
        trial_start_view(res) == trial_start_result(
            machine_id@,
            now,
            license_view(*license),
            license_signature_ok(public_key@, license_view(*license)),
            trial_view(*trial),
        ),
{
    let signed = license_signed(public_key, machine_id, license);
    resolve_trial_start(machine_id, now, license, signed, trial)
}

} // verus!
