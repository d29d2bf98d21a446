use dcbothub::text::{
    char_is_whitespace, contains_whitespace, copy_strings, count_lines, join_words, push_decimal,
    push_signed, push_zero_padded,
};
use dcbothub::TaskType;

fn decimal(n: u64) -> String {
    let mut out = String::new();
    push_decimal(&mut out, n);
    out
}

fn signed(i: i64) -> String {
    let mut out = String::new();
    push_signed(&mut out, i);
    out
}

fn padded(n: u64, width: usize) -> String {
    let mut out = String::new();
    push_zero_padded(&mut out, n, width);
    out
}

#[test]
fn task_type_names() {
    assert_eq!(TaskType::Clean.name(), "Clean");
    assert_eq!(TaskType::CleanAll.name(), "CleanAll");
    assert_eq!(TaskType::Build.name(), "Build");
    assert_eq!(TaskType::Pull.name(), "Pull");
}

#[test]
fn decimal_digits() {
    assert_eq!(decimal(0), "0");
    assert_eq!(decimal(7), "7");
    assert_eq!(decimal(10), "10");
    assert_eq!(decimal(1234567890), "1234567890");
    assert_eq!(decimal(u64::MAX), "18446744073709551615");
}

#[test]
fn decimal_agrees_with_std() {
    for n in [0u64, 1, 9, 10, 99, 100, 101, 4096, 99_999_999, 100_000_000, 4_294_967_295] {
        assert_eq!(decimal(n), format!("{}", n));
    }
}

#[test]
fn decimal_appends() {
    let mut out = String::from("n=");
    push_decimal(&mut out, 42);
    assert_eq!(out, "n=42");
}

#[test]
fn signed_decimal() {
    assert_eq!(signed(0), "0");
    assert_eq!(signed(-1), "-1");
    assert_eq!(signed(137), "137");
    assert_eq!(signed(i32::MIN as i64), "-2147483648");
    assert_eq!(signed(i64::MIN), "-9223372036854775808");
    assert_eq!(signed(i64::MAX), "9223372036854775807");
}

#[test]
fn zero_padding() {
    assert_eq!(padded(0, 8), "00000000");
    assert_eq!(padded(42, 8), "00000042");
    assert_eq!(padded(99_999_999, 8), "99999999");
    assert_eq!(padded(7, 1), "7");
    assert_eq!(padded(7, 0), "7");
}

#[test]
fn zero_padding_never_shortens() {
    assert_eq!(padded(100_000_000, 8), "100000000");
    assert_eq!(padded(4_294_967_295, 8), "4294967295");
}

#[test]
fn zero_padding_agrees_with_std() {
    for n in [0u64, 5, 12, 12345678, 123456789] {
        assert_eq!(padded(n, 8), format!("{:08}", n));
    }
}

#[test]
fn whitespace_characters() {
    for c in [' ', '\t', '\n', '\r', '\u{b}', '\u{c}', '\u{85}', '\u{a0}', '\u{1680}',
        '\u{2000}', '\u{200a}', '\u{2028}', '\u{2029}', '\u{202f}', '\u{205f}', '\u{3000}'] {
        assert!(char_is_whitespace(c), "{:?}", c);
    }
    for c in ['a', '0', '_', '-', '\u{8}', '\u{e}', '\u{200b}', '\u{feff}', '\u{180e}'] {
        assert!(!char_is_whitespace(c), "{:?}", c);
    }
}

#[test]
fn whitespace_agrees_with_std() {
    let mut code = 0u32;
    while code < 0x11000 {
        if let Some(c) = char::from_u32(code) {
            assert_eq!(char_is_whitespace(c), c.is_whitespace(), "{:?}", c);
        }
        code += 1;
    }
}

#[test]
fn texts_with_whitespace() {
    assert!(!contains_whitespace(""));
    assert!(!contains_whitespace("greeter"));
    assert!(contains_whitespace("two words"));
    assert!(contains_whitespace("tab\tbed"));
    assert!(contains_whitespace("wide\u{3000}space"));
    assert!(contains_whitespace("trailing\n"));
}

#[test]
fn line_counts() {
    assert_eq!(count_lines(""), 0);
    assert_eq!(count_lines("\n"), 1);
    assert_eq!(count_lines("one"), 1);
    assert_eq!(count_lines("one\n"), 1);
    assert_eq!(count_lines("one\ntwo"), 2);
    assert_eq!(count_lines("one\ntwo\n"), 2);
    assert_eq!(count_lines("\n\n\n"), 3);
    assert_eq!(count_lines("a\r\nb\r\n"), 2);
}

#[test]
fn line_counts_agree_with_std() {
    for text in ["", "\n", "a", "a\n", "a\nb", "\n\na", "é\nü\n", "x\r\ny", "\r\n"] {
        assert_eq!(count_lines(text), text.lines().count(), "{:?}", text);
    }
}

#[test]
fn joined_words() {
    let none: Vec<String> = Vec::new();
    assert_eq!(join_words(&none, " "), "");
    assert_eq!(join_words(&vec!["hello".to_string()], " "), "hello");
    assert_eq!(join_words(&vec!["hello".to_string(), "world".to_string()], " "), "hello world");
    assert_eq!(
        join_words(&vec!["a".to_string(), "".to_string(), "b".to_string()], ", "),
        "a, , b"
    );
}

#[test]
fn copied_strings() {
    let list = vec!["--release".to_string(), "-v".to_string()];
    assert_eq!(copy_strings(&list), list);
    assert_eq!(copy_strings(&Vec::new()), Vec::<String>::new());
}
