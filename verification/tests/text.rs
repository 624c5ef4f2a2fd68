use account_auth::text::blank;
use account_auth::text::char_is_whitespace;
use account_auth::text::has_prefix_at;
use account_auth::text::skip_trailing_whitespace;
use account_auth::text::skip_whitespace;
use account_auth::text::text_eq;
use account_auth::text::to_chars;

#[test]
fn whitespace_agrees_with_the_standard_library() {
    let mut code: u32 = 0;
    while code <= 0x10FFFF {
        if let Some(c) = char::from_u32(code) {
            assert_eq!(char_is_whitespace(c), c.is_whitespace(), "U+{:04X}", code);
        }
        code += 1;
    }
}

#[test]
fn to_chars_keeps_every_character_in_order() {
    assert_eq!(to_chars("a\u{e9}\u{3000}z"), vec!['a', '\u{e9}', '\u{3000}', 'z']);
    assert_eq!(to_chars(""), Vec::<char>::new());
}

#[test]
fn text_eq_compares_by_characters() {
    assert!(text_eq("admin", "admin"));
    assert!(!text_eq("admin", "Admin"));
    assert!(!text_eq("admin", "admin "));
    assert!(text_eq("", ""));
}

#[test]
fn skip_whitespace_stops_at_the_first_other_character() {
    let v = to_chars(" \t\nab c  ");
    assert_eq!(skip_whitespace(&v, 0, v.len()), 3);
    assert_eq!(skip_whitespace(&v, 3, v.len()), 3);
    assert_eq!(skip_whitespace(&v, 5, v.len()), 6);
    assert_eq!(skip_whitespace(&v, 7, v.len()), 9);
    assert_eq!(skip_whitespace(&v, 0, 2), 2);
}

#[test]
fn skip_trailing_whitespace_stops_after_the_last_other_character() {
    let v = to_chars(" \t\nab c  ");
    assert_eq!(skip_trailing_whitespace(&v, 0, v.len()), 7);
    assert_eq!(skip_trailing_whitespace(&v, 0, 6), 5);
    assert_eq!(skip_trailing_whitespace(&v, 0, 3), 0);
    assert_eq!(skip_trailing_whitespace(&v, 7, v.len()), 7);
}

#[test]
fn has_prefix_at_looks_only_inside_the_range() {
    let v = to_chars("xxBearer abc");
    let p = to_chars("Bearer ");
    assert!(has_prefix_at(&v, 2, v.len(), &p));
    assert!(!has_prefix_at(&v, 0, v.len(), &p));
    assert!(!has_prefix_at(&v, 2, 8, &p));
    assert!(has_prefix_at(&v, 2, 9, &p));
    assert!(has_prefix_at(&v, 5, 5, &Vec::new()));
}

#[test]
fn blank_is_what_trims_to_nothing() {
    assert!(blank(""));
    assert!(blank("   "));
    assert!(blank("\t\r\n\u{a0}\u{2003}"));
    assert!(!blank(" a "));
    assert!(!blank("\u{200b}"));
    for s in ["", " ", "x", "  x", "x  ", " \u{3000} ", "\u{feff}"] {
        assert_eq!(blank(s), s.trim().is_empty(), "{:?}", s);
    }
}
