use base64::engine::general_purpose::STANDARD;
use base64::Engine;
use ed25519_dalek::{Signer, SigningKey};
use hhpos_license::generator::{
    edition_at, format_key_display, format_pub_key_bytes, generate_license_key, hyphenate,
    key_pair_status, new_key_pair, normalize_key_for_verify, verify_license_key, GenerateError, KeyPairStatus,
    LicenseGenerator, MainTab, VerifyError,
};

const SECRET: [u8; 32] = [7u8; 32];
const PUBLIC: [u8; 32] = [
    234, 74, 108, 99, 226, 156, 82, 10, 190, 245, 80, 123, 19, 46, 197, 249, 149, 71, 118, 174,
    190, 190, 123, 146, 66, 30, 234, 105, 20, 70, 210, 44,
];
const MACHINE: &str = "ABCD-1234-EF56";
const NOW: u64 = 1_700_000_000;
const PRO_KEY: &str = "HHPOS|ABCD-1234-EF56|1702592000|PRO|VDmPYyDvTIt9TCgeCV7PTOTDvksaWTql7SKWw9jijmWjmgr4DbEpxki4ajKU8SHt9BLecjYPTLrpROabmZbSCw==";

fn signed_by_dalek(payload: &str) -> String {
    let key = SigningKey::from_bytes(&SECRET);
    let sig = key.sign(payload.as_bytes());
    format!("{payload}|{}", STANDARD.encode(sig.to_bytes()))
}

fn invalid_point() -> [u8; 32] {
    for b in 0u8..=255 {
        let k = [b; 32];
        if ed25519_dalek::VerifyingKey::from_bytes(&k).is_err() {
            return k;
        }
    }
    panic!("every candidate decompressed");
}

#[test]
fn editions_in_order() {
    assert_eq!(edition_at(0), "FREE");
    assert_eq!(edition_at(1), "BASIC");
    assert_eq!(edition_at(2), "PRO");
    assert_eq!(edition_at(3), "LIFETIME");
}

#[test]
fn hyphenate_groups_by_four() {
    let s: Vec<char> = "abcdefghij".chars().collect();
    assert_eq!(hyphenate(&s).iter().collect::<String>(), "abcd-efgh-ij");
    let t: Vec<char> = "abcdefgh".chars().collect();
    assert_eq!(hyphenate(&t).iter().collect::<String>(), "abcd-efgh");
    let u: Vec<char> = "abc".chars().collect();
    assert_eq!(hyphenate(&u).iter().collect::<String>(), "abc");
    assert_eq!(hyphenate(&[]).len(), 0);
}

#[test]
fn format_key_display_cases() {
    assert_eq!(format_key_display("HHPOS|M|0|PRO|abcdefghij", true), "HHPOS|M|0|PRO|abcd-efgh-ij");
    assert_eq!(format_key_display("HHPOS|M|0|PRO|abcdefghij", false), "HHPOS|M|0|PRO|abcdefghij");
    assert_eq!(format_key_display("", true), "");
    assert_eq!(format_key_display("no fields here", true), "no fields here");
    assert_eq!(format_key_display("a|b|c|d|e|f|ghijk", true), "a|b|c|d|e|f|-ghij-k");
}

#[test]
fn normalize_key_for_verify_cleans_fields() {
    assert_eq!(
        normalize_key_for_verify(" hhpos | ABCD | 0 | PRO | ab-cd-ef "),
        "HHPOS|ABCD|0|PRO|abcdef"
    );
    assert_eq!(normalize_key_for_verify("a b|c"), "ab|c");
}

#[test]
fn generate_license_key_signs_the_payload() {
    let (key, expiry) =
        generate_license_key(MACHINE, "PRO", 30, Ok(SECRET.to_vec()), NOW).unwrap();
    assert_eq!(expiry, 1_702_592_000);
    assert_eq!(key, PRO_KEY);
    assert_eq!(key, signed_by_dalek("HHPOS|ABCD-1234-EF56|1702592000|PRO"));
}

#[test]
fn generate_license_key_lifetime_and_trimmed_machine() {
    let (key, expiry) =
        generate_license_key("  ABCD-1234-EF56 \t", "LIFETIME", -1, Ok(SECRET.to_vec()), NOW)
            .unwrap();
    assert_eq!(expiry, 0);
    assert_eq!(key, signed_by_dalek("HHPOS|ABCD-1234-EF56|0|LIFETIME"));
}

#[test]
fn generate_license_key_errors() {
    assert_eq!(
        generate_license_key("   ", "PRO", 30, Ok(SECRET.to_vec()), NOW),
        Err(GenerateError::EmptyMachineId)
    );
    assert_eq!(
        generate_license_key(MACHINE, "GOLD", 30, Ok(SECRET.to_vec()), NOW),
        Err(GenerateError::InvalidEdition)
    );
    assert_eq!(
        generate_license_key(MACHINE, "pro", 30, Ok(SECRET.to_vec()), NOW),
        Err(GenerateError::InvalidEdition)
    );
    assert_eq!(
        generate_license_key(MACHINE, "PRO", 30, Err("not found".to_string()), NOW),
        Err(GenerateError::KeyFileUnreadable { reason: "not found".to_string() })
    );
    assert_eq!(
        generate_license_key(MACHINE, "PRO", 30, Ok(vec![1u8; 31]), NOW),
        Err(GenerateError::InvalidKeyLength)
    );
}

#[test]
fn generate_error_messages() {
    assert_eq!(GenerateError::EmptyMachineId.message(), "Hardware ID (Mã máy) không được để trống.");
    assert_eq!(GenerateError::InvalidEdition.message(), "Edition không hợp lệ.");
    assert_eq!(
        GenerateError::KeyFileUnreadable { reason: "no such file".to_string() }.message(),
        "Không đọc được private key: no such file"
    );
    assert_eq!(GenerateError::InvalidKeyLength.message(), "Private key phải đúng 32 bytes.");
}

#[test]
fn verify_license_key_accepts_a_generated_key() {
    let report = verify_license_key(PRO_KEY, Ok(PUBLIC.to_vec())).unwrap();
    assert_eq!(report, "✅ Key hợp lệ\nMáy: ABCD-1234-EF56\nGói: PRO\nHết hạn: 2023-12-14");
    let shown = format_key_display(PRO_KEY, true);
    assert!(verify_license_key(&shown, Ok(PUBLIC.to_vec())).is_ok());
    let lifetime = signed_by_dalek("HHPOS|M-1|0|LIFETIME");
    assert_eq!(
        verify_license_key(&lifetime, Ok(PUBLIC.to_vec())).unwrap(),
        "✅ Key hợp lệ\nMáy: M-1\nGói: LIFETIME\nHết hạn: Vĩnh viễn"
    );
}

#[test]
fn verify_license_key_errors() {
    assert!(matches!(
        verify_license_key(PRO_KEY, Err("gone".to_string())),
        Err(VerifyError::KeyFileUnreadable { reason }) if reason == "gone"
    ));
    assert!(matches!(
        verify_license_key(PRO_KEY, Ok(vec![0u8; 33])),
        Err(VerifyError::InvalidKeyLength)
    ));
    assert!(matches!(
        verify_license_key(PRO_KEY, Ok(invalid_point().to_vec())),
        Err(VerifyError::InvalidPublicKey(_))
    ));
    assert!(matches!(
        verify_license_key("HHPOS|a|b|c", Ok(PUBLIC.to_vec())),
        Err(VerifyError::InvalidFormat)
    ));
    assert!(matches!(
        verify_license_key("XPOS|a|b|c|d", Ok(PUBLIC.to_vec())),
        Err(VerifyError::InvalidFormat)
    ));
    assert!(matches!(
        verify_license_key("HHPOS|a|1|PRO|***", Ok(PUBLIC.to_vec())),
        Err(VerifyError::InvalidBase64(_))
    ));
    assert!(matches!(
        verify_license_key("HHPOS|a|1|PRO|AAAA", Ok(PUBLIC.to_vec())),
        Err(VerifyError::InvalidSignatureLength)
    ));
    let tampered = PRO_KEY.replace("|PRO|", "|BASIC|");
    assert!(matches!(
        verify_license_key(&tampered, Ok(PUBLIC.to_vec())),
        Err(VerifyError::InvalidSignature(_))
    ));
}

#[test]
fn format_pub_key_bytes_lists_hex_literals() {
    let mut key = [0u8; 32];
    key[0] = 0x0a;
    key[1] = 0xff;
    key[31] = 0x10;
    let s = format_pub_key_bytes(&key);
    assert!(s.starts_with("[0x0a, 0xff, 0x00, "));
    assert!(s.ends_with(", 0x00, 0x10]"));
    let expected = format!(
        "[{}]",
        key.iter().map(|b| format!("0x{b:02x}")).collect::<Vec<_>>().join(", ")
    );
    assert_eq!(s, expected);
}

#[test]
fn key_pair_status_cases() {
    assert_eq!(key_pair_status(false, true, true, true), KeyPairStatus::MissingPrivate);
    assert_eq!(key_pair_status(true, false, true, true), KeyPairStatus::MissingPublic);
    assert_eq!(key_pair_status(true, true, false, true), KeyPairStatus::Invalid);
    assert_eq!(key_pair_status(true, true, true, false), KeyPairStatus::Invalid);
    assert_eq!(key_pair_status(true, true, true, true), KeyPairStatus::Loaded);
    assert_eq!(KeyPairStatus::MissingPrivate.label(), "Missing private key");
    assert_eq!(KeyPairStatus::MissingPublic.label(), "Missing public key");
    assert_eq!(KeyPairStatus::Invalid.label(), "Invalid key pair");
    assert_eq!(KeyPairStatus::Loaded.label(), "Key pair loaded");
    assert_eq!(KeyPairStatus::MissingPrivate.rgb(), (185, 28, 28));
    assert_eq!(KeyPairStatus::Invalid.rgb(), (180, 83, 9));
    assert_eq!(KeyPairStatus::Loaded.rgb(), (22, 163, 74));
}

#[test]
fn generator_opens_with_defaults() {
    let g = LicenseGenerator::new();
    assert_eq!(g.tab, MainTab::KeysGenerator);
    assert_eq!(g.edition_idx, 2);
    assert_eq!(g.days_limit, 365);
    assert!(!g.lifetime);
    assert!(g.add_hyphens);
    assert_eq!(g.private_key_path, "./keys/ed25519_private.key");
    assert_eq!(g.public_key_path, "./keys/ed25519_public.key");
    assert_eq!(g.output_dir, "./keys");
    assert_eq!(g.status_message, "Sẵn sàng tạo key.");
    assert!(!g.status_error);
    assert!(g.license_log.is_empty());
}

#[test]
fn generator_status_line_and_days() {
    let mut g = LicenseGenerator::new();
    g.set_err("bad".to_string());
    assert!(g.status_error);
    assert_eq!(g.status_message, "bad");
    g.set_ok("good".to_string());
    assert!(!g.status_error);
    assert_eq!(g.status_message, "good");
    assert_eq!(g.effective_days(), 365);
    g.days_limit = 0;
    assert_eq!(g.effective_days(), 1);
    g.days_limit = -5;
    assert_eq!(g.effective_days(), 1);
    g.lifetime = true;
    assert_eq!(g.effective_days(), -1);
}

#[test]
fn generator_refreshes_the_display() {
    let mut g = LicenseGenerator::new();
    g.raw_license_key = "HHPOS|M|0|PRO|abcdefgh".to_string();
    g.refresh_display_key();
    assert_eq!(g.display_license_key, "HHPOS|M|0|PRO|abcd-efgh");
    g.add_hyphens = false;
    g.refresh_display_key();
    assert_eq!(g.display_license_key, "HHPOS|M|0|PRO|abcdefgh");
}

#[test]
fn generator_generates_and_logs() {
    let mut g = LicenseGenerator::new();
    g.machine_id = "  abcd-1234-ef56 ".to_string();
    g.registration_name = "Cửa hàng A".to_string();
    g.days_limit = 30;
    g.generate_clicked(NOW, Ok(SECRET.to_vec()));
    assert_eq!(g.machine_id, MACHINE);
    assert_eq!(g.raw_license_key, PRO_KEY);
    assert_eq!(g.display_license_key, format_key_display(PRO_KEY, true));
    assert_eq!(g.license_log.len(), 1);
    let entry = &g.license_log[0];
    assert_eq!(entry.time, "2023-11-14 22:13:20");
    assert_eq!(entry.customer_name, "Cửa hàng A");
    assert_eq!(entry.machine_id, MACHINE);
    assert_eq!(entry.edition, "PRO");
    assert_eq!(entry.expiry, "2023-12-14");
    assert_eq!(entry.license_key, PRO_KEY);
    assert_eq!(g.status_message, "Đã tạo key — Gói PRO, hết hạn: 2023-12-14");
    assert!(!g.status_error);

    g.lifetime = true;
    g.edition_idx = 3;
    g.do_generate(NOW, Ok(SECRET.to_vec()));
    assert_eq!(g.license_log.len(), 2);
    assert_eq!(g.license_log[0].edition, "LIFETIME");
    assert_eq!(g.license_log[0].expiry, "Vĩnh viễn");
    assert_eq!(g.license_log[1].edition, "PRO");
    assert_eq!(g.status_message, "Đã tạo key — Gói LIFETIME, hết hạn: Vĩnh viễn");
}

#[test]
fn generator_reports_errors_without_logging() {
    let mut g = LicenseGenerator::new();
    g.do_generate(NOW, Ok(SECRET.to_vec()));
    assert!(g.status_error);
    assert_eq!(g.status_message, "Hardware ID (Mã máy) không được để trống.");
    assert!(g.license_log.is_empty());
    g.machine_id = MACHINE.to_string();
    g.do_generate(NOW, Ok(vec![0u8; 3]));
    assert_eq!(g.status_message, "Private key phải đúng 32 bytes.");
    assert!(g.raw_license_key.is_empty());
}

#[test]
fn new_key_pair_is_consistent() {
    let a = new_key_pair();
    let b = new_key_pair();
    assert_ne!(a.secret, b.secret);
    let dalek_public = SigningKey::from_bytes(&a.secret).verifying_key().to_bytes();
    assert_eq!(a.public, dalek_public);
    assert_eq!(a.public_literal, format_pub_key_bytes(&a.public));
    let (key, _) = generate_license_key(MACHINE, "FREE", 1, Ok(a.secret.to_vec()), NOW).unwrap();
    assert!(verify_license_key(&key, Ok(a.public.to_vec())).is_ok());
    assert!(matches!(
        verify_license_key(&key, Ok(b.public.to_vec())),
        Err(VerifyError::InvalidSignature(_))
    ));
}

#[test]
fn generator_copy_and_clear() {
    let mut g = LicenseGenerator::new();
    assert_eq!(g.copy_key(), None);
    assert!(g.status_error);
    assert_eq!(g.status_message, "Chưa có key để copy.");
    assert_eq!(g.status_rgb(), (185, 28, 28));
    g.machine_id = MACHINE.to_string();
    g.days_limit = 30;
    g.do_generate(NOW, Ok(SECRET.to_vec()));
    assert_eq!(g.copy_key(), Some(PRO_KEY.to_string()));
    assert!(!g.status_error);
    assert_eq!(g.status_message, "Đã copy key vào clipboard.");
    assert_eq!(g.status_rgb(), (22, 163, 74));
    g.set_err("x".to_string());
    assert_eq!(g.copy_log_entry(0), PRO_KEY);
    assert_eq!(g.status_message, "Đã copy key từ log.");
    assert!(!g.status_error);
    g.clear_log();
    assert!(g.license_log.is_empty());
    assert_eq!(g.status_message, "Đã xóa log.");
    assert_eq!(g.raw_license_key, PRO_KEY);
}

#[test]
fn generator_takes_new_key_pairs() {
    let mut g = LicenseGenerator::new();
    g.key_pair_created(Ok(("/k/priv".to_string(), "/k/pub".to_string(), "[0x01]".to_string())));
    assert_eq!(g.private_key_path, "/k/priv");
    assert_eq!(g.public_key_path, "/k/pub");
    assert_eq!(g.keygen_pub_bytes, "[0x01]");
    assert_eq!(g.status_message, "Tạo cặp khóa thành công.");
    assert!(!g.status_error);
    g.key_pair_created(Err("Không tạo được thư mục: denied".to_string()));
    assert_eq!(g.status_message, "Không tạo được thư mục: denied");
    assert!(g.status_error);
    assert_eq!(g.private_key_path, "/k/priv");

    let mut h = LicenseGenerator::new();
    h.key_pair_auto_created(Err("x".to_string()));
    assert_eq!(h.status_message, "Sẵn sàng tạo key.");
    assert_eq!(h.private_key_path, "./keys/ed25519_private.key");
    h.key_pair_auto_created(Ok(("a".to_string(), "b".to_string(), "c".to_string())));
    assert_eq!(h.private_key_path, "a");
    assert_eq!(h.public_key_path, "b");
    assert_eq!(h.keygen_pub_bytes, "");
    assert_eq!(h.status_message, "✓ Key pair tạo tự động. Sẵn sàng tạo key.");
}

#[test]
fn generation_overflow_depends_on_the_form() {
    let mut g = LicenseGenerator::new();
    g.machine_id = MACHINE.to_string();
    let near_end = u64::MAX - 1000 * 86_400;
    assert!(!g.generation_overflows(near_end, &Ok(SECRET.to_vec())));
    g.days_limit = 1001;
    assert!(g.generation_overflows(near_end, &Ok(SECRET.to_vec())));
    assert!(!g.generation_overflows(near_end, &Ok(vec![1u8; 3])));
    assert!(!g.generation_overflows(near_end, &Err("gone".to_string())));
    g.lifetime = true;
    assert!(!g.generation_overflows(u64::MAX, &Ok(SECRET.to_vec())));
    g.lifetime = false;
    g.machine_id = "   ".to_string();
    assert!(!g.generation_overflows(u64::MAX, &Ok(SECRET.to_vec())));
    g.generate_clicked(u64::MAX, Ok(SECRET.to_vec()));
    assert_eq!(g.status_message, "Hardware ID (Mã máy) không được để trống.");
}

#[test]
fn verify_error_messages() {
    let e = verify_license_key(PRO_KEY, Err("gone".to_string())).unwrap_err();
    assert_eq!(e.message(), "Không đọc public key: gone");
    let e = verify_license_key(PRO_KEY, Ok(vec![0u8; 5])).unwrap_err();
    assert_eq!(e.message(), "Public key phải đúng 32 bytes.");
    let e = verify_license_key(PRO_KEY, Ok(invalid_point().to_vec())).unwrap_err();
    let dalek_err = ed25519_dalek::VerifyingKey::from_bytes(&invalid_point()).unwrap_err();
    assert_eq!(e.message(), format!("Public key lỗi: {dalek_err}"));
    let e = verify_license_key("nope", Ok(PUBLIC.to_vec())).unwrap_err();
    assert_eq!(e.message(), "Key sai định dạng. Cần: HHPOS|machine|expiry|edition|signature");
    let e = verify_license_key("HHPOS|a|1|PRO|***", Ok(PUBLIC.to_vec())).unwrap_err();
    let b64_err = STANDARD.decode("***").unwrap_err();
    assert_eq!(e.message(), format!("Signature base64 lỗi: {b64_err}"));
    let e = verify_license_key("HHPOS|a|1|PRO|AAAA", Ok(PUBLIC.to_vec())).unwrap_err();
    assert_eq!(e.message(), "Signature phải 64 bytes.");
    let tampered = PRO_KEY.replace("|PRO|", "|BASIC|");
    let e = verify_license_key(&tampered, Ok(PUBLIC.to_vec())).unwrap_err();
    assert!(e.message().starts_with("Chữ ký không hợp lệ: "));
    assert!(e.message().len() > "Chữ ký không hợp lệ: ".len());
}
