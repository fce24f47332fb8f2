use shinc::utils::text::{
    begins_with, chars_of, copy_range, join, lines_of, push_decimal, same_text, scan,
    scan_back, text_of, text_of_range, trim_bounds, trim_end_bound, CharClass,
};

fn trimmed(s: &str) -> String {
    let v = chars_of(s);
    let (a, b) = trim_bounds(&v, 0, v.len());
    text_of_range(&v, a, b)
}

#[test]
fn whitespace_is_what_std_calls_whitespace() {
    let mut n = 0u32;
    while n <= 0x10FFFF {
        if let Some(c) = char::from_u32(n) {
            assert_eq!(CharClass::Space.contains(c), c.is_whitespace(), "{:x}", n);
        }
        n += 1;
    }
}

#[test]
fn name_characters() {
    let mut n = 0u32;
    while n <= 0x10FFFF {
        if let Some(c) = char::from_u32(n) {
            let expected = c.is_ascii_alphanumeric() || c == '_' || c == '-' || c == '.' || c == ':';
            assert_eq!(CharClass::Name.contains(c), expected, "{:x}", n);
        }
        n += 1;
    }
}

#[test]
fn other_classes() {
    assert!(CharClass::Hash.contains('#'));
    assert!(!CharClass::Hash.contains('@'));
    assert!(CharClass::Blank.contains(' '));
    assert!(CharClass::Blank.contains('\t'));
    assert!(!CharClass::Blank.contains('\n'));
    assert!(!CharClass::Blank.contains('\u{a0}'));
    assert!(CharClass::LineBody.contains('\r'));
    assert!(!CharClass::LineBody.contains('\n'));
}

#[test]
fn trimming_agrees_with_std() {
    for s in ["", " ", "a", " a ", "\t a b \u{3000}\n", "\u{a0}x\u{2003}", "  \r\n", "x  y"] {
        assert_eq!(trimmed(s), s.trim(), "{:?}", s);
        let v = chars_of(s);
        let end = trim_end_bound(&v, 0, v.len());
        assert_eq!(text_of_range(&v, 0, end), s.trim_end(), "{:?}", s);
    }
}

#[test]
fn scanning() {
    let v = chars_of("###  @x");
    assert_eq!(scan(&v, 0, v.len(), CharClass::Hash), 3);
    assert_eq!(scan(&v, 3, v.len(), CharClass::Blank), 5);
    assert_eq!(scan(&v, 0, 2, CharClass::Hash), 2);
    assert_eq!(scan(&v, 5, v.len(), CharClass::Hash), 5);
    let w = chars_of("ab  ");
    assert_eq!(scan_back(&w, 0, w.len(), CharClass::Blank), 2);
    assert_eq!(scan_back(&w, 3, w.len(), CharClass::Blank), 3);
    assert_eq!(scan_back(&w, 0, 2, CharClass::Blank), 2);
}

#[test]
fn characters_and_back() {
    for s in ["", "abc", "é𝄞 x"] {
        let v = chars_of(s);
        assert_eq!(v, s.chars().collect::<Vec<char>>());
        assert_eq!(text_of(&v), s);
    }
    let v = chars_of("hello");
    assert_eq!(copy_range(&v, 1, 4), vec!['e', 'l', 'l']);
    assert_eq!(text_of_range(&v, 2, 2), "");
}

#[test]
fn comparing_texts() {
    assert!(same_text("", ""));
    assert!(same_text("abc", "abc"));
    assert!(!same_text("abc", "abd"));
    assert!(!same_text("abc", "ab"));
    let v = chars_of("x include y");
    assert!(begins_with(&v, 2, v.len(), "include"));
    assert!(!begins_with(&v, 3, v.len(), "include"));
    assert!(!begins_with(&v, 2, 8, "include"));
    assert!(begins_with(&v, 4, 4, ""));
}

#[test]
fn lines() {
    let v = chars_of("a\r\n\nb\r");
    let lines: Vec<String> = lines_of(&v).iter().map(|l| text_of(l)).collect();
    assert_eq!(lines, vec!["a", "", "b\r"]);
}

#[test]
fn decimal_numbers() {
    for n in [0usize, 7, 10, 99, 100, 12345, usize::MAX] {
        let mut s = String::from("n=");
        push_decimal(&mut s, n);
        assert_eq!(s, format!("n={}", n));
    }
}

#[test]
fn joining() {
    let parts = vec!["a".to_string(), String::new(), "b c".to_string()];
    assert_eq!(join(&parts, ','), "a,,b c");
    assert_eq!(join(&parts, ','), parts.join(","));
    assert_eq!(join(&parts[..1], ' '), "a");
    assert_eq!(join(&[], ' '), "");
}
