use thaime::text::{decimal_text, same_text};

#[test]
fn single_digits() {
    assert_eq!(decimal_text(0), "0");
    assert_eq!(decimal_text(7), "7");
    assert_eq!(decimal_text(9), "9");
}

#[test]
fn several_digits() {
    assert_eq!(decimal_text(10), "10");
    assert_eq!(decimal_text(99), "99");
    assert_eq!(decimal_text(100), "100");
    assert_eq!(decimal_text(65293), "65293");
    assert_eq!(decimal_text(1_000_000_000), "1000000000");
}

#[test]
fn largest_number() {
    assert_eq!(decimal_text(u32::MAX), "4294967295");
}

#[test]
fn decimal_text_agrees_with_the_standard_library() {
    let mut n: u32 = 1;
    for _ in 0..31 {
        assert_eq!(decimal_text(n), format!("{}", n));
        assert_eq!(decimal_text(n - 1), format!("{}", n - 1));
        n *= 2;
    }
}

#[test]
fn different_numbers_have_different_texts() {
    assert_ne!(decimal_text(1), decimal_text(10));
    assert_ne!(decimal_text(12), decimal_text(21));
    assert_ne!(decimal_text(0), decimal_text(1));
}

#[test]
fn texts_are_compared_by_content() {
    assert!(same_text("thaime-rust", "thaime-rust"));
    assert!(same_text("", ""));
    assert!(!same_text("thaime-rust", "thaime"));
    assert!(!same_text("thaime-rust", "Thaime-rust"));
    assert!(!same_text("", " "));
}
