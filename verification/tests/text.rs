use model_check::text;

#[test]
fn white_space_is_that_of_unicode() {
    for code in 0..=0x10ffff_u32 {
        if let Some(c) = char::from_u32(code) {
            assert_eq!(text::char_is_white_space(c), c.is_whitespace());
        }
    }
}

#[test]
fn texts_are_trimmed() {
    for s in ["", " ", "a", " a", "a ", "\u{3000}a b\u{a0}\n", "\t\r\n", "模 型 "] {
        assert_eq!(text::trim(s), s.trim());
    }
    for s in ["", "/", "a/", "a//", "/a/b", "//a"] {
        assert_eq!(text::trim_end_matches(s, '/'), s.trim_end_matches('/'));
        assert_eq!(text::trim_start_matches(s, '/'), s.trim_start_matches('/'));
    }
}

#[test]
fn letters_are_lowered() {
    for s in ["", "ABC xyz", "@[`{", "É模Z"] {
        let lower: String = text::to_ascii_lowercase(s).into_iter().collect();
        assert_eq!(lower, s.to_ascii_lowercase());
        assert!(text::eq_ignore_ascii_case(s, &lower));
    }
    assert!(!text::eq_ignore_ascii_case("a", "b"));
    assert!(!text::eq_ignore_ascii_case("a", "ab"));
    assert!(!text::eq_ignore_ascii_case("É", "é"));
}

#[test]
fn texts_are_searched() {
    let hays = ["", "a", "abc", "abab", "模型 a"];
    let needles = ["", "a", "ab", "bab", "abc", "型", "abcd"];
    for hay in hays {
        let chars = text::chars_of(hay);
        for needle in needles {
            assert_eq!(text::contains(&chars, needle), hay.contains(needle));
            assert_eq!(text::starts_with(hay, needle), hay.starts_with(needle));
            assert_eq!(text::ends_with(hay, needle), hay.ends_with(needle));
            assert_eq!(text::strip_prefix(hay, needle), hay.strip_prefix(needle));
            assert_eq!(text::same(hay, needle), hay == needle);
            assert_eq!(text::same_chars(&chars, needle), hay == needle);
        }
    }
    assert_eq!(text::find("模a@b@", '@'), Some(2));
    assert_eq!(text::find("模", '@'), None);
}

#[test]
fn numbers_are_written_in_decimal() {
    for n in [0_u16, 7, 10, 99, 404, 1000, 65535] {
        assert_eq!(text::decimal_text(n), n.to_string());
    }
    assert_eq!(text::join2("a", "b"), "ab");
    assert_eq!(text::join3("a", "b", "c"), "abc");
}
