use doc_convert::text::{eq_ignore_ascii_case, fold_ascii_char, same_text};

#[test]
fn only_ascii_capitals_are_folded() {
    assert_eq!(fold_ascii_char('A'), 'a');
    assert_eq!(fold_ascii_char('Z'), 'z');
    assert_eq!(fold_ascii_char('M'), 'm');
    for c in ['a', 'z', '@', '[', '0', ' ', 'É', 'Σ', '\u{212A}', '界'] {
        assert_eq!(fold_ascii_char(c), c);
    }
}

#[test]
fn folding_agrees_with_the_standard_library() {
    for code in 0u32..0x3000 {
        if let Some(c) = char::from_u32(code) {
            assert_eq!(fold_ascii_char(c), c.to_ascii_lowercase());
        }
    }
}

#[test]
fn same_text_compares_every_character() {
    assert!(same_text("", ""));
    assert!(same_text("html5", "html5"));
    assert!(same_text("世界", "世界"));
    assert!(!same_text("html", "html5"));
    assert!(!same_text("html5", "html"));
    assert!(!same_text("html5", "html4"));
    assert!(!same_text("Html", "html"));
    assert!(!same_text("", "a"));
}

#[test]
fn case_of_ascii_letters_is_ignored() {
    assert!(eq_ignore_ascii_case("auto", "AUTO"));
    assert!(eq_ignore_ascii_case("AuTo", "aUtO"));
    assert!(eq_ignore_ascii_case("", ""));
    assert!(eq_ignore_ascii_case("a-1", "A-1"));
    assert!(!eq_ignore_ascii_case("auto", "autos"));
    assert!(!eq_ignore_ascii_case("autos", "auto"));
    assert!(!eq_ignore_ascii_case("auto", "outa"));
    assert!(!eq_ignore_ascii_case("@", "`"));
    assert!(!eq_ignore_ascii_case("[", "{"));
}

#[test]
fn case_of_other_letters_is_not_ignored() {
    assert!(!eq_ignore_ascii_case("é", "É"));
    assert!(!eq_ignore_ascii_case("k", "\u{212A}"));
    assert!(eq_ignore_ascii_case("É", "É"));
}

#[test]
fn comparison_agrees_with_the_standard_library() {
    let samples = ["", "auto", "AUTO", "Auto ", "aut", "É", "é", "a\u{212A}", "ak", "AK", "[", "{"];
    for a in samples {
        for b in samples {
            assert_eq!(eq_ignore_ascii_case(a, b), a.eq_ignore_ascii_case(b));
            assert_eq!(same_text(a, b), a == b);
        }
    }
}
