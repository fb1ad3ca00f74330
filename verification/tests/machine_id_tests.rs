use hhpos_license::machine_id::{clean_registry_value, collect_machine_id, fingerprint};
use sha2::{Digest, Sha256};

fn shaped(id: &str) -> bool {
    let c: Vec<char> = id.chars().collect();
    c.len() == 14
        && c[4] == '-'
        && c[9] == '-'
        && c.iter()
            .enumerate()
            .all(|(i, ch)| i == 4 || i == 9 || ch.is_ascii_digit() || ('A'..='F').contains(ch))
}

#[test]
fn clean_registry_value_trims_then_drops_nul() {
    assert_eq!(clean_registry_value(" abc\0 "), "abc");
    assert_eq!(clean_registry_value("\0 abc \0"), " abc ");
    assert_eq!(clean_registry_value("  "), "");
    assert_eq!(clean_registry_value("a\0b"), "ab");
}

#[test]
fn collect_machine_id_known_values() {
    assert_eq!(collect_machine_id("guid", "serial", "manuf", "cpu", "host"), "857A-23B4-E516");
    assert_eq!(collect_machine_id("", "", "", "", ""), "88DC-E375-4235");
    assert_eq!(collect_machine_id("Việt", "", "", "", ""), "B4E8-13A9-613E");
}

#[test]
fn collect_machine_id_is_prefix_of_the_digest() {
    let raw = "a|b|c|d|e";
    let mut h = Sha256::new();
    h.update(b"HHPOS_MID_v1:");
    h.update(raw.as_bytes());
    let d = h.finalize();
    let hex: String = d[..6].iter().map(|b| format!("{b:02X}")).collect();
    let want = format!("{}-{}-{}", &hex[..4], &hex[4..8], &hex[8..12]);
    let got = collect_machine_id("a", "b", "c", "d", "e");
    assert_eq!(got, want);
    assert!(shaped(&got));
    assert_ne!(got, collect_machine_id("a", "b", "c", "d", "f"));
}

#[test]
fn fingerprint_formats_first_six_bytes() {
    let mut d = [0u8; 32];
    d[..6].copy_from_slice(&[0x01, 0xAB, 0xFF, 0x00, 0x9C, 0x3E]);
    d[6] = 0x77;
    assert_eq!(fingerprint(&d), "01AB-FF00-9C3E");
    assert!(shaped(&fingerprint(&[0xEE; 32])));
}
