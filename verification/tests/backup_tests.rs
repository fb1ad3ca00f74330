use hhpos_license::backups::{backup_file_name, sort_newest_first, text_less};

#[test]
fn backup_names() {
    assert_eq!(backup_file_name(None, 1_700_000_000), "backup_1700000000.json");
    assert_eq!(backup_file_name(Some(String::new()), 0), "backup_0.json");
    assert_eq!(backup_file_name(Some("truoc-khi-xoa".to_string()), 5), "backup_truoc-khi-xoa.json");
}

#[test]
fn text_less_is_string_order() {
    let words = ["", "a", "b", "ab", "aa", "B", "backup_1.json", "backup_10.json", "backup_9.json", "é"];
    for x in words {
        for y in words {
            let xc: Vec<char> = x.chars().collect();
            let yc: Vec<char> = y.chars().collect();
            assert_eq!(text_less(&xc, &yc), x < y, "{x:?} {y:?}");
        }
    }
}

#[test]
fn newest_first_matches_sort_then_reverse() {
    let names: Vec<String> = [
        "/d/backup_1700000000.json",
        "/d/backup_1699999999.json",
        "/d/backup_label.json",
        "/d/backup_1700000000.json",
        "/d/backup_2.json",
        "/d/backup_10.json",
    ]
    .iter()
    .map(|s| s.to_string())
    .collect();
    let mut expected = names.clone();
    expected.sort();
    expected.reverse();
    assert_eq!(sort_newest_first(names), expected);
    assert!(sort_newest_first(Vec::new()).is_empty());
}
