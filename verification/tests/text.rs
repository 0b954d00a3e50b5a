use charts_view::text::{
    append_decimal, append_signed, contains, deleted_message, download_path, failed_message, join_path, level_label,
};

fn decimal(n: u64) -> String {
    let mut s = String::from("n=");
    append_decimal(&mut s, n);
    s
}

fn signed(i: i32) -> String {
    let mut s = String::new();
    append_signed(&mut s, i);
    s
}

#[test]
fn decimals_print_as_std_prints_them() {
    for n in [0u64, 1, 9, 10, 11, 99, 100, 1234567890, u64::MAX] {
        assert_eq!(decimal(n), format!("n={}", n));
    }
}

#[test]
fn signed_decimals_print_as_std_prints_them() {
    for i in [0i32, 7, -7, 10, -10, i32::MAX, i32::MIN] {
        assert_eq!(signed(i), i.to_string());
    }
}

#[test]
fn contains_finds_parts() {
    assert!(contains("IN Lv.13", "Lv."));
    assert!(contains("Lv.", "Lv."));
    assert!(contains("LLv.", "Lv."));
    assert!(!contains("Lv", "Lv."));
    assert!(!contains("", "Lv."));
    assert!(!contains("L.v.", "Lv."));
    assert!(contains("", ""));
    assert!(contains("等级Lv.3", "Lv."));
}

#[test]
fn level_gets_a_number() {
    assert_eq!(level_label(&"IN".to_string(), 13), "IN Lv.13");
    assert_eq!(level_label(&"".to_string(), 0), " Lv.0");
    assert_eq!(level_label(&"SP".to_string(), -1), "SP Lv.-1");
}

#[test]
fn level_keeps_its_number() {
    assert_eq!(level_label(&"AT Lv.16".to_string(), 13), "AT Lv.16");
    assert_eq!(level_label(&"Lv.?".to_string(), 13), "Lv.?");
}

#[test]
fn labelling_twice_changes_nothing() {
    let once = level_label(&"HD".to_string(), 7);
    assert_eq!(level_label(&once, 9), once);
}

#[test]
fn download_paths() {
    assert_eq!(download_path(42), "download/42");
    assert_eq!(download_path(0), "download/0");
    assert_eq!(download_path(-3), "download/-3");
}

#[test]
fn joined_paths() {
    assert_eq!(join_path(&"/data/charts".to_string(), &"download/42".to_string()), "/data/charts/download/42");
}

#[test]
fn messages() {
    assert_eq!(deleted_message(3), "Deleted 3 chart(s)");
    assert_eq!(failed_message(&"/c/a".to_string()), "Failed to delete chart at path: /c/a");
}
