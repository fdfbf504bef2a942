use arg_attrs::{CasingStyle, ConfigError, DEFAULT_CASING};

#[test]
fn kebab_splits_at_capitals() {
    assert_eq!(CasingStyle::Kebab.translate("fooBar"), "foo-bar");
    assert_eq!(CasingStyle::Kebab.translate("myApp"), "my-app");
    assert_eq!(CasingStyle::Kebab.translate("foo_bar"), "foo-bar");
}

#[test]
fn screaming_snake_shouts() {
    assert_eq!(CasingStyle::ScreamingSnake.translate("foo-bar"), "FOO_BAR");
    assert_eq!(CasingStyle::ScreamingSnake.translate("fooBar"), "FOO_BAR");
}

#[test]
fn pascal_capitalises_every_word() {
    assert_eq!(CasingStyle::Pascal.translate("foo_bar"), "FooBar");
    assert_eq!(CasingStyle::Pascal.translate("XMLHttpRequest"), "XmlHttpRequest");
}

#[test]
fn camel_keeps_first_word_low() {
    assert_eq!(CasingStyle::Camel.translate("foo_bar"), "fooBar");
    assert_eq!(CasingStyle::Camel.translate("FooBar"), "fooBar");
}

#[test]
fn snake_joins_with_underscores() {
    assert_eq!(CasingStyle::Snake.translate("fooBar"), "foo_bar");
    assert_eq!(CasingStyle::Snake.translate("foo-bar"), "foo_bar");
}

#[test]
fn verbatim_is_the_identity() {
    for input in ["fooBar", "foo_bar", "Foo-Bar baz", "", "  x  ", "ΣΑΣ"] {
        assert_eq!(CasingStyle::Verbatim.translate(input), input);
    }
}

#[test]
fn verbatim_twice_is_verbatim_once() {
    let once = CasingStyle::Verbatim.translate("some_Name-here");
    let twice = CasingStyle::Verbatim.translate(&once);
    assert_eq!(once, twice);
}

#[test]
fn translate_is_repeatable() {
    let styles = [
        CasingStyle::Camel,
        CasingStyle::Kebab,
        CasingStyle::Pascal,
        CasingStyle::ScreamingSnake,
        CasingStyle::Snake,
        CasingStyle::Verbatim,
    ];
    for style in styles {
        for input in ["fooBar", "foo_bar", "foo-bar", "FOO", "a1b2"] {
            assert_eq!(style.translate(input), style.translate(input));
        }
    }
}

#[test]
fn words_are_cut_at_every_separator() {
    assert_eq!(CasingStyle::Kebab.translate("this-contains_ ALLKinds"), "this-contains-all-kinds");
    assert_eq!(CasingStyle::Snake.translate("hello__world"), "hello_world");
    assert_eq!(CasingStyle::Pascal.translate(""), "");
}

#[test]
fn default_casing_is_kebab() {
    assert_eq!(DEFAULT_CASING, CasingStyle::Kebab);
}

#[test]
fn style_names_parse() {
    assert_eq!(CasingStyle::from_str("camel"), Ok(CasingStyle::Camel));
    assert_eq!(CasingStyle::from_str("kebab"), Ok(CasingStyle::Kebab));
    assert_eq!(CasingStyle::from_str("pascal"), Ok(CasingStyle::Pascal));
    assert_eq!(CasingStyle::from_str("screamingsnake"), Ok(CasingStyle::ScreamingSnake));
    assert_eq!(CasingStyle::from_str("snake"), Ok(CasingStyle::Snake));
    assert_eq!(CasingStyle::from_str("verbatim"), Ok(CasingStyle::Verbatim));
}

#[test]
fn style_names_take_a_case_suffix() {
    assert_eq!(CasingStyle::from_str("camelCase"), Ok(CasingStyle::Camel));
    assert_eq!(CasingStyle::from_str("kebab-case"), Ok(CasingStyle::Kebab));
    assert_eq!(CasingStyle::from_str("PascalCase"), Ok(CasingStyle::Pascal));
    assert_eq!(CasingStyle::from_str("SCREAMING_SNAKE_CASE"), Ok(CasingStyle::ScreamingSnake));
    assert_eq!(CasingStyle::from_str("snake_case"), Ok(CasingStyle::Snake));
    assert_eq!(CasingStyle::from_str("verbatim case"), Ok(CasingStyle::Verbatim));
}

#[test]
fn style_names_ignore_case() {
    assert_eq!(CasingStyle::from_str("KEBAB"), Ok(CasingStyle::Kebab));
    assert_eq!(CasingStyle::from_str("Kebab"), Ok(CasingStyle::Kebab));
    assert_eq!(CasingStyle::from_str("screaming-snake"), Ok(CasingStyle::ScreamingSnake));
    assert_eq!(CasingStyle::from_str("Screaming_Snake"), Ok(CasingStyle::ScreamingSnake));
}

#[test]
fn unknown_style_names_fail() {
    assert_eq!(CasingStyle::from_str("lower"), Err(ConfigError::UnknownCasingStyle));
    assert_eq!(CasingStyle::from_str(""), Err(ConfigError::UnknownCasingStyle));
    assert_eq!(CasingStyle::from_str("kebabs"), Err(ConfigError::UnknownCasingStyle));
    assert_eq!(CasingStyle::from_str("case"), Err(ConfigError::UnknownCasingStyle));
}

#[test]
fn normalized_names_are_looked_up_exactly() {
    assert_eq!(CasingStyle::from_normalized("kebabcase"), Ok(CasingStyle::Kebab));
    assert_eq!(CasingStyle::from_normalized("snake"), Ok(CasingStyle::Snake));
    assert_eq!(CasingStyle::from_normalized("Kebab"), Err(ConfigError::UnknownCasingStyle));
    assert_eq!(CasingStyle::from_normalized("kebab-case"), Err(ConfigError::UnknownCasingStyle));
}
