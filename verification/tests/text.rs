use cat_conformance::text::{
    bytes_contain, chars_of, clone_strings, contains, decimal, join, push_decimal,
    push_decimal_bytes, push_signed, push_text, same_strings,
};

fn strings(items: &[&str]) -> Vec<String> {
    items.iter().map(|t| t.to_string()).collect()
}

#[test]
fn join_puts_the_separator_between_neighbours() {
    assert_eq!(join(&strings(&["-n", "-b", "-s"]), " "), "-n -b -s");
    assert_eq!(join(&strings(&["--number"]), " "), "--number");
    assert_eq!(join(&strings(&[]), " "), "");
    assert_eq!(join(&strings(&["a", "", "b"]), ", "), "a, , b");
}

#[test]
fn contains_finds_a_run_anywhere() {
    assert!(contains("matrix file short bundled -n", "bundled"));
    assert!(contains("fifo streaming", "fifo"));
    assert!(contains("fifo streaming", "streaming"));
    assert!(contains("anything", ""));
    assert!(!contains("fifo", "fifo streaming"));
    assert!(!contains("-n option", "-N"));
}

#[test]
fn bytes_contain_finds_a_run_of_bytes() {
    assert!(bytes_contain(b"Usage: wcat [OPTION]...\n", b"Usage: wcat"));
    assert!(!bytes_contain(b"Usage: cat [OPTION]...\n", b"Usage: wcat"));
    assert!(bytes_contain(b"\xff\xfewcat 0.1\x80", b"wcat 0.1"));
    assert!(bytes_contain(b"", b""));
    assert!(!bytes_contain(b"", b"x"));
}

#[test]
fn decimal_writes_numerals_without_padding() {
    assert_eq!(decimal(0), "0");
    assert_eq!(decimal(7), "7");
    assert_eq!(decimal(10), "10");
    assert_eq!(decimal(3000), "3000");
    assert_eq!(decimal(u64::MAX), "18446744073709551615");
}

#[test]
fn push_decimal_appends_to_what_is_there() {
    let mut out = String::from("line ");
    push_decimal(&mut out, 42);
    assert_eq!(out, "line 42");
    let mut bytes = b"line ".to_vec();
    push_decimal_bytes(&mut bytes, 1005);
    assert_eq!(bytes, b"line 1005");
}

#[test]
fn push_signed_writes_a_minus_sign() {
    let mut out = String::new();
    push_signed(&mut out, -1);
    out.push(' ');
    push_signed(&mut out, 0);
    out.push(' ');
    push_signed(&mut out, 141);
    out.push(' ');
    push_signed(&mut out, i64::MIN);
    assert_eq!(out, "-1 0 141 -9223372036854775808");
}

#[test]
fn push_text_appends_the_utf8_bytes() {
    let mut out = vec![1u8];
    push_text(&mut out, "a\u{e9}\n");
    assert_eq!(out, vec![1u8, b'a', 0xc3, 0xa9, b'\n']);
}

#[test]
fn chars_of_lists_characters_not_bytes() {
    assert_eq!(chars_of("-\u{e9}x"), vec!['-', '\u{e9}', 'x']);
    assert_eq!(chars_of(""), Vec::<char>::new());
}

#[test]
fn same_strings_is_sensitive_to_order() {
    assert!(same_strings(&strings(&["-n", "-b"]), &strings(&["-n", "-b"])));
    assert!(!same_strings(&strings(&["-n", "-b"]), &strings(&["-b", "-n"])));
    assert!(!same_strings(&strings(&["-n"]), &strings(&["-n", "-n"])));
    assert!(same_strings(&strings(&[]), &strings(&[])));
    assert_eq!(clone_strings(&strings(&["a", "b"])), strings(&["a", "b"]));
}
