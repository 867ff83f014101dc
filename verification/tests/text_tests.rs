use quivive::text::{chars_of, decimal_string, push_decimal, push_signed_decimal, replace};

#[test]
fn decimal_of_zero() {
    assert_eq!(decimal_string(0), "0");
}

#[test]
fn decimal_of_numbers() {
    assert_eq!(decimal_string(7), "7");
    assert_eq!(decimal_string(10), "10");
    assert_eq!(decimal_string(1234567890), "1234567890");
    assert_eq!(decimal_string(u64::MAX as u128), u64::MAX.to_string());
    assert_eq!(decimal_string(u128::MAX), u128::MAX.to_string());
}

#[test]
fn decimal_appends() {
    let mut s = String::from("n=");
    push_decimal(&mut s, 42);
    assert_eq!(s, "n=42");
}

#[test]
fn signed_decimal_of_numbers() {
    for i in [0i64, 1, -1, 9, -10, 305, i32::MIN as i64, i32::MAX as i64, i64::MIN, i64::MAX] {
        let mut s = String::new();
        push_signed_decimal(&mut s, i);
        assert_eq!(s, i.to_string());
    }
}

#[test]
fn chars_of_unicode() {
    assert_eq!(chars_of("héllo 👋"), vec!['h', 'é', 'l', 'l', 'o', ' ', '👋']);
    assert_eq!(chars_of(""), Vec::<char>::new());
}

#[test]
fn replace_matches_std() {
    let cases = [
        ("Welcome {user} to {server}!", "{user}", "<@1>"),
        ("{user}{user}", "{user}", "x"),
        ("aaa", "aa", "b"),
        ("aaaa", "aa", "b"),
        ("no placeholder here", "{user}", "<@1>"),
        ("", "{user}", "x"),
        ("{use{user}r}", "{user}", ""),
        ("héllo {user} 👋", "{user}", "ünïcode"),
        ("ab", "abc", "z"),
        ("abc", "", "x"),
        ("", "", "x"),
        ("héllo", "", "-"),
        ("abc", "", ""),
    ];
    for (s, p, r) in cases {
        assert_eq!(replace(s, p, r), s.replace(p, r), "replace({:?}, {:?}, {:?})", s, p, r);
    }
}

#[test]
fn replace_absent_pattern_keeps_text() {
    let s = "Hello there, welcome!";
    assert_eq!(replace(s, "{server}", "Guild"), s);
}

#[test]
fn replace_by_itself_keeps_text() {
    let s = "{user} and {user}";
    assert_eq!(replace(s, "{user}", "{user}"), s);
}
