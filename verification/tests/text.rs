use devserve::text::{bytes_eq, chars_of, extend_bytes, push_decimal, str_eq, DIGITS};

fn decimal_of(n: usize) -> String {
    let mut out = String::new();
    push_decimal(&mut out, n);
    out
}

#[test]
fn decimal_of_small_numbers() {
    assert_eq!(decimal_of(0), "0");
    assert_eq!(decimal_of(7), "7");
    assert_eq!(decimal_of(9), "9");
    assert_eq!(decimal_of(10), "10");
    assert_eq!(decimal_of(11), "11");
    assert_eq!(decimal_of(99), "99");
    assert_eq!(decimal_of(100), "100");
    assert_eq!(decimal_of(1203), "1203");
}

#[test]
fn decimal_of_large_numbers() {
    assert_eq!(decimal_of(4_294_967_295), "4294967295");
    assert_eq!(decimal_of(usize::MAX), format!("{}", usize::MAX));
}

#[test]
fn decimal_is_appended() {
    let mut out = String::from("Content-Length: ");
    push_decimal(&mut out, 42);
    assert_eq!(out, "Content-Length: 42");
    push_decimal(&mut out, 0);
    assert_eq!(out, "Content-Length: 420");
}

#[test]
fn digits_are_the_ten_digits() {
    assert_eq!(DIGITS, "0123456789");
}

#[test]
fn strings_compare_by_content() {
    assert!(str_eq("", ""));
    assert!(str_eq("html", "html"));
    assert!(!str_eq("html", "htm"));
    assert!(!str_eq("htm", "html"));
    assert!(!str_eq("html", "htmk"));
    assert!(!str_eq("", "a"));
    assert!(str_eq("caf\u{e9}", "caf\u{e9}"));
    assert!(!str_eq("caf\u{e9}", "cafe"));
}

#[test]
fn bytes_compare_by_content() {
    assert!(bytes_eq(&[], &[]));
    assert!(bytes_eq(&[1, 2, 3], &[1, 2, 3]));
    assert!(!bytes_eq(&[1, 2, 3], &[1, 2]));
    assert!(!bytes_eq(&[1, 2, 3], &[1, 2, 4]));
    assert!(!bytes_eq(&[0], &[]));
}

#[test]
fn chars_come_out_in_order() {
    assert_eq!(chars_of(""), Vec::<char>::new());
    assert_eq!(chars_of("a/b"), vec!['a', '/', 'b']);
    assert_eq!(chars_of("\u{e9}\u{1f600}x"), vec!['\u{e9}', '\u{1f600}', 'x']);
}

#[test]
fn bytes_are_appended() {
    let mut out: Vec<u8> = vec![1, 2];
    extend_bytes(&mut out, &[3, 4, 5]);
    assert_eq!(out, vec![1, 2, 3, 4, 5]);
    extend_bytes(&mut out, &[]);
    assert_eq!(out, vec![1, 2, 3, 4, 5]);
}
