use lotion::text::{
    chars_of, copy_text_opt, copy_texts, has_prefix, has_suffix, holds_text, is_blank,
    is_white_space, joined, position_of, same_text, skip_chars,
};

#[test]
fn white_space_is_that_of_the_standard_library() {
    for c in '\0'..=char::MAX {
        assert_eq!(is_white_space(c), c.is_whitespace(), "{:?}", c);
    }
}

#[test]
fn blank_text_is_what_trimming_empties() {
    for s in ["", " ", "\t\r\n", "\u{2003}\u{a0}", " a ", "a", "\u{200b}"] {
        assert_eq!(is_blank(s), s.trim().is_empty(), "{:?}", s);
    }
}

#[test]
fn comparisons_go_by_characters() {
    for a in ["", "a", "ab", "\u{e9}", "e\u{301}", "ab\u{4e2d}", "\u{4e2d}"] {
        for b in ["", "a", "ab", "b", "\u{e9}", "\u{4e2d}", "ab\u{4e2d}"] {
            assert_eq!(same_text(a, b), a == b);
            assert_eq!(has_prefix(a, b), a.starts_with(b));
            assert_eq!(has_suffix(a, b), a.ends_with(b));
            assert_eq!(joined(a, b), format!("{}{}", a, b));
        }
    }
}

#[test]
fn texts_are_taken_apart() {
    assert_eq!(chars_of("a\u{e9}"), ['a', '\u{e9}']);
    assert_eq!(skip_chars("a\u{e9}b", 2), "b");
    assert_eq!(skip_chars("a", 1), "");
}

#[test]
fn lists_of_texts() {
    let v: Vec<String> = ["x", "y", "x"].iter().map(|s| s.to_string()).collect();
    assert_eq!(copy_texts(&v), v);
    assert_eq!(position_of(&v, "x"), Some(0));
    assert_eq!(position_of(&v, "y"), Some(1));
    assert_eq!(position_of(&v, "z"), None);
    assert_eq!(copy_text_opt(&None), None);
    assert_eq!(copy_text_opt(&Some("x".into())).as_deref(), Some("x"));
    assert!(holds_text(&Some("x".into()), "x"));
    assert!(!holds_text(&Some("x".into()), "y"));
    assert!(!holds_text(&None, "x"));
}
