use mihoyo_widget::text::{
    chars_of, decimal_len, lex_le_exec, push_decimal, push_hex, push_hex_fixed, push_int,
    push_joined, push_padded_int, sort_texts, split_chars,
};

fn chars(s: &str) -> Vec<char> {
    s.chars().collect()
}

#[test]
fn decimal_rendering() {
    let mut s = String::new();
    push_decimal(&mut s, 0);
    s.push(' ');
    push_decimal(&mut s, 1234567890);
    s.push(' ');
    push_decimal(&mut s, u128::MAX);
    assert_eq!(s, format!("0 1234567890 {}", u128::MAX));
    assert_eq!(decimal_len(0), 1);
    assert_eq!(decimal_len(999), 3);
    assert_eq!(decimal_len(u128::MAX), 39);
}

#[test]
fn signed_rendering_matches_std() {
    for n in [0i64, 7, -7, 1000, i64::MIN, i64::MAX] {
        let mut s = String::new();
        push_int(&mut s, n);
        assert_eq!(s, format!("{}", n));
    }
}

#[test]
fn padded_rendering_matches_std() {
    for n in [0i64, 5, -5, 42, 2024, 12345, -12345, i64::MIN] {
        let mut s4 = String::new();
        push_padded_int(&mut s4, n, 4);
        assert_eq!(s4, format!("{:04}", n));
        let mut s2 = String::new();
        push_padded_int(&mut s2, n, 2);
        assert_eq!(s2, format!("{:02}", n));
    }
}

#[test]
fn hex_rendering_matches_std() {
    let mut s = String::new();
    push_hex(&mut s, &[0x00, 0x0a, 0xff, 0x10]);
    assert_eq!(s, "000aff10");
    for n in [0u64, 255, 0xdead_beef, u64::MAX] {
        let mut h = String::new();
        push_hex_fixed(&mut h, n, 16);
        assert_eq!(h, format!("{:016x}", n));
    }
}

#[test]
fn split_join_and_sort() {
    assert_eq!(chars_of("a\u{e9}b"), vec!['a', '\u{e9}', 'b']);
    let pieces = split_chars(&chars("b=2&&a=1&"), '&');
    assert_eq!(pieces, vec![chars("b=2"), chars(""), chars("a=1"), chars("")]);
    let sorted = sort_texts(pieces);
    assert_eq!(sorted, vec![chars(""), chars(""), chars("a=1"), chars("b=2")]);
    let mut s = String::new();
    push_joined(&mut s, &sorted, '&');
    assert_eq!(s, "&&a=1&b=2");
    assert!(lex_le_exec(&chars("ab"), &chars("abc")));
    assert!(!lex_le_exec(&chars("b"), &chars("abc")));
    assert!(lex_le_exec(&chars("same"), &chars("same")));
}

#[test]
fn sort_matches_str_order() {
    let words = ["zeta", "\u{e9}t\u{e9}", "Zeta", "alpha", "al", "", "\u{4f53}"];
    let mut expected: Vec<&str> = words.to_vec();
    expected.sort();
    let sorted = sort_texts(words.iter().map(|w| chars(w)).collect());
    let got: Vec<String> = sorted.iter().map(|c| c.iter().collect()).collect();
    assert_eq!(got, expected);
}
