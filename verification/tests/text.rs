use media_import::text::{
    chars_of, contains, owned, push_decimal, same_text, starts_with, string_of, to_lowercase,
    to_lower_char,
};

fn decimal_string(n: u64) -> String {
    let mut out = String::new();
    push_decimal(&mut out, n);
    out
}

#[test]
fn lowercase_changes_ascii_letters_only() {
    assert_eq!(to_lowercase("IMG_0001.JPG"), "img_0001.jpg");
    assert_eq!(to_lowercase("already lower"), "already lower");
    assert_eq!(to_lowercase(""), "");
    assert_eq!(to_lowercase("ÄÖ\u{212A}Z"), "ÄÖ\u{212A}z");
    assert_eq!(to_lower_char('A'), 'a');
    assert_eq!(to_lower_char('Z'), 'z');
    assert_eq!(to_lower_char('@'), '@');
    assert_eq!(to_lower_char('['), '[');
}

#[test]
fn decimal_string_of_bounds() {
    assert_eq!(decimal_string(0), "0");
    assert_eq!(decimal_string(7), "7");
    assert_eq!(decimal_string(10), "10");
    assert_eq!(decimal_string(1048576), "1048576");
    assert_eq!(decimal_string(u64::MAX), "18446744073709551615");
}

#[test]
fn same_text_compares_characters() {
    assert!(same_text("jpg", "jpg"));
    assert!(!same_text("jpg", "jpeg"));
    assert!(!same_text("jpg", "jpG"));
    assert!(same_text("", ""));
    assert!(!same_text("", "a"));
}

#[test]
fn starts_with_and_contains() {
    assert!(starts_with("/media/usb0", "/media/"));
    assert!(!starts_with("/medi", "/media/"));
    assert!(starts_with("abc", ""));
    assert!(contains("/dev/sdb1", "sd"));
    assert!(contains("sd", "sd"));
    assert!(!contains("/dev/nvme0n1", "sd"));
    assert!(contains("anything", ""));
    assert!(!contains("s", "sd"));
    assert!(contains("xxusb", "usb"));
}

#[test]
fn characters_round_trip() {
    let chars = chars_of("héllo");
    assert_eq!(chars, vec!['h', 'é', 'l', 'l', 'o']);
    assert_eq!(string_of(&chars, 1, 4), "éll");
    assert_eq!(string_of(&chars, 2, 2), "");
    assert_eq!(owned("ab"), "ab");
}

#[test]
fn decimal_is_appended() {
    let mut out = "n=".to_string();
    push_decimal(&mut out, 405);
    push_decimal(&mut out, 0);
    assert_eq!(out, "n=4050");
}
