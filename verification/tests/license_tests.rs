use hhpos_license::crypto::sign_payload;
use hhpos_license::license::{
    activate_license, build_payload, check_license, complete_activation, days_left_until,
    file_cipher, format_expiry, is_valid_edition, last_run_plaintext, normalize_license_key,
    parse_last_run, parse_license_key, resolve_license_status, resolve_trial_start, start_trial,
    ActivationError, LicenseFile, LicenseKey, LicenseStatus, TrialError, TrialFile,
};

const SECRET: [u8; 32] = [7u8; 32];
const PUBLIC: [u8; 32] = [
    234, 74, 108, 99, 226, 156, 82, 10, 190, 245, 80, 123, 19, 46, 197, 249, 149, 71, 118, 174,
    190, 190, 123, 146, 66, 30, 234, 105, 20, 70, 210, 44,
];
const MACHINE: &str = "ABCD-1234-EF56";
const NOW: u64 = 1_700_000_000;
const EXPIRY: u64 = 1_702_592_000;
const PRO_KEY: &str = "HHPOS|ABCD-1234-EF56|1702592000|PRO|VDmPYyDvTIt9TCgeCV7PTOTDvksaWTql7SKWw9jijmWjmgr4DbEpxki4ajKU8SHt9BLecjYPTLrpROabmZbSCw==";
const PRO_SIG: &str = "VDmPYyDvTIt9TCgeCV7PTOTDvksaWTql7SKWw9jijmWjmgr4DbEpxki4ajKU8SHt9BLecjYPTLrpROabmZbSCw==";

fn license(expiry: u64, edition: &str, last_run: u64) -> LicenseFile {
    let payload = build_payload(MACHINE, expiry, edition);
    LicenseFile {
        v: 1,
        machine_id: MACHINE.to_string(),
        expiry,
        edition: edition.to_string(),
        sig: sign_payload(&SECRET, &payload),
        last_run,
    }
}

fn trial(started: u64) -> TrialFile {
    TrialFile { v: 1, machine_id: MACHINE.to_string(), trial_started: started, last_run: started }
}

#[test]
fn build_payload_joins_fields() {
    assert_eq!(build_payload("M-1", 0, "PRO"), "HHPOS|M-1|0|PRO");
    assert_eq!(build_payload("ABCD", 1702592000, "FREE"), "HHPOS|ABCD|1702592000|FREE");
}

#[test]
fn format_expiry_cases() {
    assert_eq!(format_expiry(0, NOW), "Vĩnh viễn");
    assert_eq!(format_expiry(NOW, NOW), "Đã hết hạn");
    assert_eq!(format_expiry(NOW - 1, NOW), "Đã hết hạn");
    assert_eq!(format_expiry(NOW + 5 * 86400 + 100, NOW), "Còn 5 ngày");
    assert_eq!(format_expiry(NOW + 1, NOW), "Còn 0 ngày");
    assert_eq!(format_expiry(EXPIRY, NOW), "Còn 30 ngày");
}

#[test]
fn days_left_until_matches_signed_arithmetic() {
    assert_eq!(days_left_until(EXPIRY, NOW), 30);
    assert_eq!(days_left_until(NOW, EXPIRY), -30);
    assert_eq!(days_left_until(NOW + 86399, NOW), 0);
    assert_eq!(days_left_until(NOW, NOW + 86399), 0);
    assert_eq!(days_left_until(NOW, NOW + 86400), -1);
    for &(e, n) in &[
        (1u64 << 63, 1u64),
        (u64::MAX, 0),
        (0, u64::MAX),
        (5, 1u64 << 63),
        (u64::MAX, 1u64 << 63),
        (123_456_789, 987_654_321),
    ] {
        let expected = (e as i64).wrapping_sub(n as i64) / 86400;
        assert_eq!(days_left_until(e, n), expected, "{} {}", e, n);
    }
}

#[test]
fn last_run_record_round_trip() {
    assert_eq!(last_run_plaintext(1_700_000_123), b"1700000123".to_vec());
    assert_eq!(parse_last_run(&last_run_plaintext(0)), Some(0));
    assert_eq!(parse_last_run(&last_run_plaintext(u64::MAX)), Some(u64::MAX));
    let sealed = file_cipher(MACHINE, &last_run_plaintext(NOW));
    assert_eq!(parse_last_run(&file_cipher(MACHINE, &sealed)), Some(NOW));
}

#[test]
fn parse_last_run_follows_from_str() {
    assert_eq!(parse_last_run(b"  42\n"), Some(42));
    assert_eq!(parse_last_run("\u{a0}7\u{3000}".as_bytes()), Some(7));
    assert_eq!(parse_last_run(b"+9"), Some(9));
    assert_eq!(parse_last_run(b"-1"), None);
    assert_eq!(parse_last_run(b"+"), None);
    assert_eq!(parse_last_run(b""), None);
    assert_eq!(parse_last_run(b"1 2"), None);
    assert_eq!(parse_last_run(b"18446744073709551615"), Some(u64::MAX));
    assert_eq!(parse_last_run(b"18446744073709551616"), None);
    assert_eq!(parse_last_run(&[0xFF, 0x31]), None);
    for text in ["0", "007", " 15 ", "+0", "99999999999999999999", "1e3", "x"] {
        assert_eq!(parse_last_run(text.as_bytes()), text.trim().parse::<u64>().ok(), "{}", text);
    }
}

#[test]
fn file_cipher_depends_on_machine() {
    let data = b"secret".to_vec();
    let a = file_cipher("A", &data);
    let b = file_cipher("B", &data);
    assert_ne!(a, b);
    assert_eq!(file_cipher("A", &a), data);
}

#[test]
fn normalize_license_key_cleans_fields() {
    assert_eq!(
        normalize_license_key(" hhpos | AB-CD |123| pro | abcd-efgh-ij \n"),
        "HHPOS|AB-CD|123|pro|abcdefghij"
    );
    assert_eq!(normalize_license_key("no pipes here"), "nopipeshere");
    assert_eq!(normalize_license_key("a|b|c"), "a|b|c");
    assert_eq!(normalize_license_key("a|b|c|d|e|f-g"), "A|b|c|d|e|fg");
    assert_eq!(normalize_license_key(""), "");
    assert_eq!(normalize_license_key("straße|b|c|d|e"), "STRASSE|b|c|d|e");
}

#[test]
fn valid_editions() {
    for e in ["FREE", "BASIC", "PRO", "LIFETIME"] {
        assert!(is_valid_edition(e));
    }
    assert!(!is_valid_edition("pro"));
    assert!(!is_valid_edition("ENTERPRISE"));
    assert!(!is_valid_edition(""));
}

#[test]
fn parse_license_key_fields() {
    let k = parse_license_key(PRO_KEY).unwrap();
    assert_eq!(
        k,
        LicenseKey {
            machine: MACHINE.to_string(),
            expiry: EXPIRY,
            edition: "PRO".to_string(),
            signature: PRO_SIG.to_string(),
        }
    );
    assert_eq!(parse_license_key("HHPOS|a|b|c"), Err(ActivationError::InvalidFormat));
    assert_eq!(parse_license_key("HPOS|a|1|c|d"), Err(ActivationError::InvalidFormat));
    assert_eq!(parse_license_key("HHPOS|a|x1|c|d"), Err(ActivationError::InvalidExpiry));
    assert_eq!(parse_license_key("hhpos|a|1|pro|d").unwrap().edition, "PRO");
}

#[test]
fn activate_license_accepts_a_signed_key() {
    let a = activate_license(&PUBLIC, PRO_KEY, MACHINE, NOW).unwrap();
    assert_eq!(
        a.license,
        LicenseFile {
            v: 1,
            machine_id: MACHINE.to_string(),
            expiry: EXPIRY,
            edition: "PRO".to_string(),
            sig: PRO_SIG.to_string(),
            last_run: NOW,
        }
    );
    assert_eq!(
        a.status,
        LicenseStatus::Active {
            machine_id: MACHINE.to_string(),
            edition: "PRO".to_string(),
            expiry_str: "Còn 30 ngày".to_string(),
            days_left: Some(30),
        }
    );
}

#[test]
fn activate_license_accepts_the_display_form_and_case() {
    let shown = hhpos_license::generator::format_key_display(PRO_KEY, true);
    assert!(activate_license(&PUBLIC, &shown, MACHINE, NOW).is_ok());
    let lower = activate_license(&PUBLIC, PRO_KEY, "abcd-1234-ef56", NOW).unwrap();
    assert_eq!(lower.license.machine_id, "abcd-1234-ef56");
}

#[test]
fn activate_license_errors() {
    assert_eq!(activate_license(&PUBLIC, "garbage", MACHINE, NOW), Err(ActivationError::InvalidFormat));
    assert_eq!(
        activate_license(&PUBLIC, "HHPOS|ABCD-1234-EF56|soon|PRO|x", MACHINE, NOW),
        Err(ActivationError::InvalidExpiry)
    );
    assert_eq!(
        activate_license(&PUBLIC, PRO_KEY, "FFFF-0000-1111", NOW),
        Err(ActivationError::WrongMachine {
            machine_id: "FFFF-0000-1111".to_string(),
            key_machine: MACHINE.to_string(),
        })
    );
    assert_eq!(
        activate_license(&PUBLIC, "HHPOS|ABCD-1234-EF56|0|GOLD|x", MACHINE, NOW),
        Err(ActivationError::InvalidEdition)
    );
    let tampered = PRO_KEY.replace("|PRO|", "|BASIC|");
    assert_eq!(activate_license(&PUBLIC, &tampered, MACHINE, NOW), Err(ActivationError::InvalidSignature));
    assert_eq!(
        activate_license(&PUBLIC, PRO_KEY, MACHINE, EXPIRY + 1),
        Err(ActivationError::ExpiredBeforeActivation)
    );
}

#[test]
fn complete_activation_follows_the_signature_result() {
    let key = LicenseKey {
        machine: MACHINE.to_string(),
        expiry: 0,
        edition: "LIFETIME".to_string(),
        signature: "sig".to_string(),
    };
    assert_eq!(
        complete_activation(key.clone(), MACHINE, NOW, false),
        Err(ActivationError::InvalidSignature)
    );
    let ok = complete_activation(key, MACHINE, NOW, true).unwrap();
    assert_eq!(
        ok.status,
        LicenseStatus::Active {
            machine_id: MACHINE.to_string(),
            edition: "LIFETIME".to_string(),
            expiry_str: "Vĩnh viễn".to_string(),
            days_left: None,
        }
    );
    assert_eq!(ok.license.sig, "sig");
}

#[test]
fn check_reports_time_manipulation() {
    let c = check_license(&PUBLIC, MACHINE, NOW, Some(NOW + 301), Some(license(0, "PRO", NOW)), None);
    assert_eq!(c.status, LicenseStatus::TimeManipulation { machine_id: MACHINE.to_string() });
    assert_eq!(c.save_license, None);
    assert!(!c.record_last_run);
    let tolerated = check_license(&PUBLIC, MACHINE, NOW, Some(NOW + 300), None, None);
    assert_eq!(tolerated.status, LicenseStatus::Unlicensed { machine_id: MACHINE.to_string() });
    assert!(tolerated.record_last_run);
}

#[test]
fn check_reports_active_and_saves_last_run() {
    let c = check_license(&PUBLIC, MACHINE, NOW, Some(NOW - 10), Some(license(EXPIRY, "PRO", 5)), None);
    assert_eq!(
        c.status,
        LicenseStatus::Active {
            machine_id: MACHINE.to_string(),
            edition: "PRO".to_string(),
            expiry_str: "Còn 30 ngày".to_string(),
            days_left: Some(30),
        }
    );
    assert_eq!(c.save_license, Some(license(EXPIRY, "PRO", NOW)));
    assert_eq!(c.save_trial, None);
    assert!(c.record_last_run);
}

#[test]
fn check_reports_expired_license() {
    let c = check_license(&PUBLIC, MACHINE, EXPIRY + 1, None, Some(license(EXPIRY, "PRO", 5)), Some(trial(NOW)));
    assert_eq!(
        c.status,
        LicenseStatus::Expired { machine_id: MACHINE.to_string(), edition: "PRO".to_string() }
    );
    assert_eq!(c.save_license, Some(license(EXPIRY, "PRO", EXPIRY + 1)));
    assert_eq!(c.save_trial, None);
    assert!(c.record_last_run);
}

#[test]
fn check_ignores_forged_or_foreign_license() {
    let mut forged = license(0, "PRO", NOW);
    forged.edition = "LIFETIME".to_string();
    let c = check_license(&PUBLIC, MACHINE, NOW, None, Some(forged), None);
    assert_eq!(c.status, LicenseStatus::Unlicensed { machine_id: MACHINE.to_string() });
    let mut foreign = license(0, "PRO", NOW);
    foreign.machine_id = "OTHER".to_string();
    let c = check_license(&PUBLIC, MACHINE, NOW, None, Some(foreign), Some(trial(NOW)));
    assert_eq!(c.status, LicenseStatus::Trial { machine_id: MACHINE.to_string(), days_left: 7 });
}

#[test]
fn check_reports_trial_days() {
    let c = check_license(&PUBLIC, MACHINE, NOW + 3 * 86400 + 5, Some(NOW), None, Some(trial(NOW)));
    assert_eq!(c.status, LicenseStatus::Trial { machine_id: MACHINE.to_string(), days_left: 4 });
    let mut saved = trial(NOW);
    saved.last_run = NOW + 3 * 86400 + 5;
    assert_eq!(c.save_trial, Some(saved));
    let ended = check_license(&PUBLIC, MACHINE, NOW + 7 * 86400, None, None, Some(trial(NOW)));
    assert_eq!(ended.status, LicenseStatus::TrialExpired { machine_id: MACHINE.to_string() });
    // a start in the future counts as no time elapsed
    let early = check_license(&PUBLIC, MACHINE, NOW, None, None, Some(trial(NOW + 86400 * 2)));
    assert_eq!(early.status, LicenseStatus::Trial { machine_id: MACHINE.to_string(), days_left: 7 });
}

#[test]
fn resolve_status_follows_the_signature_flag() {
    let unsigned = resolve_license_status(MACHINE, NOW, None, Some(license(0, "PRO", 1)), false, None);
    assert_eq!(unsigned.status, LicenseStatus::Unlicensed { machine_id: MACHINE.to_string() });
    let mut lic = license(0, "PRO", 1);
    lic.sig = "anything".to_string();
    let signed = resolve_license_status(MACHINE, NOW, None, Some(lic), true, None);
    assert!(matches!(signed.status, LicenseStatus::Active { days_left: None, .. }));
}

#[test]
fn activated_license_is_active_on_next_launch() {
    let a = activate_license(&PUBLIC, PRO_KEY, MACHINE, NOW).unwrap();
    let later = NOW + 10 * 86400;
    let c = check_license(&PUBLIC, MACHINE, later, Some(NOW), Some(a.license), None);
    assert_eq!(
        c.status,
        LicenseStatus::Active {
            machine_id: MACHINE.to_string(),
            edition: "PRO".to_string(),
            expiry_str: "Còn 20 ngày".to_string(),
            days_left: Some(20),
        }
    );
}

#[test]
fn start_trial_once() {
    let t = start_trial(&PUBLIC, MACHINE, NOW, &None, &None).unwrap();
    assert_eq!(t.trial, trial(NOW));
    assert_eq!(t.status, LicenseStatus::Trial { machine_id: MACHINE.to_string(), days_left: 7 });
    let again = start_trial(&PUBLIC, MACHINE, NOW + 2 * 86400, &None, &Some(t.trial.clone()));
    assert_eq!(again, Err(TrialError::TrialInProgress { days_left: 5 }));
    let used = start_trial(&PUBLIC, MACHINE, NOW + 7 * 86400, &None, &Some(t.trial));
    assert_eq!(used, Err(TrialError::TrialUsed));
}

#[test]
fn start_trial_refused_when_licensed() {
    let lic = Some(license(0, "LIFETIME", NOW));
    assert_eq!(start_trial(&PUBLIC, MACHINE, NOW, &lic, &None), Err(TrialError::AlreadyLicensed));
    let mut forged = license(0, "LIFETIME", NOW);
    forged.sig = "AAAA".to_string();
    assert!(start_trial(&PUBLIC, MACHINE, NOW, &Some(forged), &None).is_ok());
}

#[test]
fn resolve_trial_start_follows_flag() {
    let lic = Some(license(0, "LIFETIME", NOW));
    assert!(resolve_trial_start(MACHINE, NOW, &lic, false, &None).is_ok());
    assert_eq!(resolve_trial_start(MACHINE, NOW, &lic, true, &None), Err(TrialError::AlreadyLicensed));
    let foreign = Some(TrialFile { v: 1, machine_id: "X".to_string(), trial_started: 0, last_run: 0 });
    assert!(resolve_trial_start(MACHINE, NOW, &None, false, &foreign).is_ok());
}

#[test]
fn activation_error_messages() {
    assert_eq!(
        ActivationError::InvalidFormat.message(),
        "Định dạng key không hợp lệ.\nKey phải có dạng: HHPOS|MachineID|Expiry|Edition|Signature"
    );
    assert_eq!(ActivationError::InvalidExpiry.message(), "Key bị lỗi: trường expiry không hợp lệ.");
    assert_eq!(
        ActivationError::WrongMachine {
            machine_id: "AAAA-BBBB-CCCC".to_string(),
            key_machine: "1111-2222-3333".to_string(),
        }
        .message(),
        "Key này không dành cho máy của bạn.\nMã máy của bạn  : AAAA-BBBB-CCCC\nMã máy trong key: 1111-2222-3333"
    );
    assert_eq!(
        ActivationError::InvalidEdition.message(),
        "Edition không hợp lệ. Phải là: FREE, BASIC, PRO hoặc LIFETIME."
    );
    assert_eq!(
        ActivationError::InvalidSignature.message(),
        "Chữ ký số không hợp lệ. Key có thể đã bị chỉnh sửa hoặc bị lỗi."
    );
    assert_eq!(
        ActivationError::ExpiredBeforeActivation.message(),
        "License này đã hết hạn từ trước khi kích hoạt."
    );
}

#[test]
fn trial_error_messages() {
    assert_eq!(
        TrialError::AlreadyLicensed.message(),
        "Máy này đã có bản quyền hợp lệ. Không cần dùng thử."
    );
    assert_eq!(
        TrialError::TrialInProgress { days_left: 5 }.message(),
        "Bạn đang trong thời gian dùng thử. Còn 5 ngày."
    );
    assert_eq!(
        TrialError::TrialInProgress { days_left: -3 }.message(),
        "Bạn đang trong thời gian dùng thử. Còn -3 ngày."
    );
    assert_eq!(
        TrialError::TrialInProgress { days_left: i64::MIN }.message(),
        format!("Bạn đang trong thời gian dùng thử. Còn {} ngày.", i64::MIN)
    );
    assert_eq!(
        TrialError::TrialUsed.message(),
        "Thời gian dùng thử đã hết. Vui lòng liên hệ để mua bản quyền."
    );
}
