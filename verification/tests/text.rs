use arg_attrs::text::{
    join_with, replace_char, same_text, split_at_char, to_chars, trim, trim_all, trim_end_matches,
    white_space,
};

fn owned_texts(parts: &[&str]) -> Vec<String> {
    parts.iter().map(|p| p.to_string()).collect()
}

#[test]
fn white_space_is_the_unicode_property() {
    let mut code: u32 = 0;
    while code <= 0x10FFFF {
        if let Some(c) = char::from_u32(code) {
            assert_eq!(white_space(c), c.is_whitespace(), "U+{:04X}", code);
        }
        code += 1;
    }
}

#[test]
fn trim_strips_both_ends() {
    assert_eq!(trim("  a b \t\n"), "a b");
    assert_eq!(trim("a"), "a");
    assert_eq!(trim(""), "");
    assert_eq!(trim(" \u{3000}\u{85} "), "");
    assert_eq!(trim("\u{a0}é x\u{2003}"), "é x");
}

#[test]
fn trim_agrees_with_std() {
    for s in ["", " ", "x", " x", "x ", "  x y  ", "\n\n", "\tä\u{2028}", "a\u{200b}"] {
        assert_eq!(trim(s), s.trim());
    }
}

#[test]
fn trailing_characters_are_all_removed() {
    assert_eq!(trim_end_matches("Does X.", '.'), "Does X");
    assert_eq!(trim_end_matches("Does X...", '.'), "Does X");
    assert_eq!(trim_end_matches("Does X. ", '.'), "Does X. ");
    assert_eq!(trim_end_matches("...", '.'), "");
    assert_eq!(trim_end_matches("", '.'), "");
    assert_eq!(trim_end_matches(".a", '.'), ".a");
}

#[test]
fn split_yields_one_piece_more_than_separators() {
    assert_eq!(split_at_char("", '\n'), owned_texts(&[""]));
    assert_eq!(split_at_char("a", '\n'), owned_texts(&["a"]));
    assert_eq!(split_at_char("a\nb", '\n'), owned_texts(&["a", "b"]));
    assert_eq!(split_at_char("a\n", '\n'), owned_texts(&["a", ""]));
    assert_eq!(split_at_char("\na", '\n'), owned_texts(&["", "a"]));
    assert_eq!(split_at_char("a\n\nb", '\n'), owned_texts(&["a", "", "b"]));
    assert_eq!(split_at_char("é:ü", ':'), owned_texts(&["é", "ü"]));
}

#[test]
fn split_agrees_with_std() {
    for s in ["", ":", "a:b", "::", "a::b:", "no separator"] {
        let expected: Vec<String> = s.split(':').map(|p| p.to_string()).collect();
        assert_eq!(split_at_char(s, ':'), expected);
    }
}

#[test]
fn join_puts_separators_between() {
    assert_eq!(join_with(&owned_texts(&[]), ", "), "");
    assert_eq!(join_with(&owned_texts(&["a"]), ", "), "a");
    assert_eq!(join_with(&owned_texts(&["a", "b", "c"]), ", "), "a, b, c");
    assert_eq!(join_with(&owned_texts(&["", ""]), "-"), "-");
    assert_eq!(join_with(&owned_texts(&["a", "b"]), ""), "ab");
}

#[test]
fn replace_char_replaces_every_occurrence() {
    assert_eq!(replace_char("a:b", ':', ", "), "a, b");
    assert_eq!(replace_char("a:b:c", ':', ", "), "a, b, c");
    assert_eq!(replace_char(":", ':', ", "), ", ");
    assert_eq!(replace_char("none", ':', ", "), "none");
    assert_eq!(replace_char("", ':', ", "), "");
    assert_eq!(replace_char("a::b", ':', ""), "ab");
}

#[test]
fn replace_char_agrees_with_std() {
    for s in ["", ":", "a:b", "::", "a::b:", "A Author <a:b>"] {
        assert_eq!(replace_char(s, ':', ", "), s.replace(":", ", "));
    }
}

#[test]
fn trim_all_trims_each() {
    assert_eq!(trim_all(&owned_texts(&[" a ", "", "b  "])), owned_texts(&["a", "", "b"]));
    assert_eq!(trim_all(&owned_texts(&[])), owned_texts(&[]));
}

#[test]
fn same_text_compares_characters() {
    assert!(same_text("about", "about"));
    assert!(!same_text("about", "About"));
    assert!(!same_text("about", "abou"));
    assert!(same_text("", ""));
}

#[test]
fn to_chars_keeps_order() {
    assert_eq!(to_chars("aé\n"), vec!['a', 'é', '\n']);
    assert_eq!(to_chars(""), Vec::<char>::new());
}
