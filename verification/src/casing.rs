//! Casing styles and the conversion of identifiers into display names.

use crate::error::ConfigError;
use crate::text::same_text;
use heck::{CamelCase, KebabCase, MixedCase, ShoutySnakeCase, SnakeCase};
use vstd::prelude::*;

verus! {

/// Defines the casing for the attributes long representation.
#[derive(Copy, Clone, PartialEq, Eq, Debug, Structural)]
pub enum CasingStyle {
    /// Indicate word boundaries with uppercase letter, excluding the first word.
    Camel,
    /// Keep all letters lowercase and indicate word boundaries with hyphens.
    Kebab,
    /// Indicate word boundaries with uppercase letter, including the first word.
    Pascal,
    /// Keep all letters uppercase and indicate word boundaries with underscores.
    ScreamingSnake,
    /// Keep all letters lowercase and indicate word boundaries with underscores.
    Snake,
    /// Use the attribute name as it is written in the code.
    Verbatim,
}

/// Default casing style for generated arguments.
pub const DEFAULT_CASING: CasingStyle = CasingStyle::Kebab;

/// What `heck::CamelCase::to_camel_case` makes of a text: its words
/// capitalised and run together.
pub uninterp spec fn upper_camel_case(s: Seq<char>) -> Seq<char>;

/// What `heck::KebabCase::to_kebab_case` makes of a text: its words in
/// lowercase, joined by hyphens.
pub uninterp spec fn kebab_case(s: Seq<char>) -> Seq<char>;

/// What `heck::MixedCase::to_mixed_case` makes of a text: as upper camel
/// case, but with the first word in lowercase.
pub uninterp spec fn lower_camel_case(s: Seq<char>) -> Seq<char>;

/// What `heck::ShoutySnakeCase::to_shouty_snake_case` makes of a text: its
/// words in uppercase, joined by underscores.
pub uninterp spec fn shouty_snake_case(s: Seq<char>) -> Seq<char>;

/// What `heck::SnakeCase::to_snake_case` makes of a text: its words in
/// lowercase, joined by underscores.
pub uninterp spec fn snake_case(s: Seq<char>) -> Seq<char>;

/// What `str::to_lowercase` makes of a text: its Unicode lowercase equivalent.
pub uninterp spec fn lowercase(s: Seq<char>) -> Seq<char>;

/// Calls `heck::CamelCase::to_camel_case`. The result is taken to depend on
/// the characters of `input` alone; it is named, not described.
#[verifier::external_body]
fn to_upper_camel(input: &str) -> (res: String)
    ensures
        res@ == upper_camel_case(input@),
{
    input.to_camel_case()
}

/// Calls `heck::KebabCase::to_kebab_case`. The result is taken to depend on
/// the characters of `input` alone; it is named, not described.
#[verifier::external_body]
fn to_kebab(input: &str) -> (res: String)
    ensures
        res@ == kebab_case(input@),
{
    input.to_kebab_case()
}

/// Calls `heck::MixedCase::to_mixed_case`. The result is taken to depend on
/// the characters of `input` alone; it is named, not described.
#[verifier::external_body]
fn to_lower_camel(input: &str) -> (res: String)
    ensures
        res@ == lower_camel_case(input@),
{
    input.to_mixed_case()
}

/// Calls `heck::ShoutySnakeCase::to_shouty_snake_case`. The result is taken
/// to depend on the characters of `input` alone; it is named, not described.
#[verifier::external_body]
fn to_shouty_snake(input: &str) -> (res: String)
    ensures
        res@ == shouty_snake_case(input@),
{
    input.to_shouty_snake_case()
}

/// Calls `heck::SnakeCase::to_snake_case`. The result is taken to depend on
/// the characters of `input` alone; it is named, not described.
#[verifier::external_body]
fn to_snake(input: &str) -> (res: String)
    ensures
        res@ == snake_case(input@),
{
    input.to_snake_case()
}

/// Calls `str::to_lowercase`. The result is taken to depend on the
/// characters of `input` alone; it is named, not described.
#[verifier::external_body]
fn to_lower(input: &str) -> (res: String)
    ensures
        res@ == lowercase(input@),
{
    input.to_lowercase()
}

/// The display name of `input` under `style`.
pub open spec fn translated(style: CasingStyle, input: Seq<char>) -> Seq<char> {
    match style {
        CasingStyle::Pascal => upper_camel_case(input),
        CasingStyle::Kebab => kebab_case(input),
        CasingStyle::Camel => lower_camel_case(input),
        CasingStyle::ScreamingSnake => shouty_snake_case(input),
        CasingStyle::Snake => snake_case(input),
        CasingStyle::Verbatim => input,
    }
}

/// The form to which a style name is brought before it is looked up: run
/// together in upper camel case, then lowercased.
pub open spec fn normalized_style_name(name: Seq<char>) -> Seq<char> {
    lowercase(upper_camel_case(name))
}

/// The style that a normalized name stands for.
pub open spec fn style_named(name: Seq<char>) -> Result<CasingStyle, ConfigError> {
    if name == "camel"@ || name == "camelcase"@ {
        Ok(CasingStyle::Camel)
    } else if name == "kebab"@ || name == "kebabcase"@ {
        Ok(CasingStyle::Kebab)
    } else if name == "pascal"@ || name == "pascalcase"@ {
        Ok(CasingStyle::Pascal)
    } else if name == "screamingsnake"@ || name == "screamingsnakecase"@ {
        Ok(CasingStyle::ScreamingSnake)
    } else if name == "snake"@ || name == "snakecase"@ {
        Ok(CasingStyle::Snake)
    } else if name == "verbatim"@ || name == "verbatimcase"@ {
        Ok(CasingStyle::Verbatim)
    } else {
        Err(ConfigError::UnknownCasingStyle)
    }
}

impl CasingStyle {
    /// Converts `input` into its display name under this style.
    pub fn translate(&self, input: &str) -> (res: String)
        ensures
            res@ == translated(*self, input@),
    {
        match *self {
            CasingStyle::Pascal => to_upper_camel(input),
            CasingStyle::Kebab => to_kebab(input),
            CasingStyle::Camel => to_lower_camel(input),
            CasingStyle::ScreamingSnake => to_shouty_snake(input),
            CasingStyle::Snake => to_snake(input),
            CasingStyle::Verbatim => input.to_owned(),
        }
    }

    /// Looks up a style by its normalized name.
    pub fn from_normalized(name: &str) -> (res: Result<CasingStyle, ConfigError>)
        ensures
            res == style_named(name@),
    {
        if same_text(name, "camel") || same_text(name, "camelcase") {
            Ok(CasingStyle::Camel)
        } else if same_text(name, "kebab") || same_text(name, "kebabcase") {
            Ok(CasingStyle::Kebab)
        } else if same_text(name, "pascal") || same_text(name, "pascalcase") {
            Ok(CasingStyle::Pascal)
        } else if same_text(name, "screamingsnake") || same_text(name, "screamingsnakecase") {
            Ok(CasingStyle::ScreamingSnake)
        } else if same_text(name, "snake") || same_text(name, "snakecase") {
            Ok(CasingStyle::Snake)
        } else if same_text(name, "verbatim") || same_text(name, "verbatimcase") {
            Ok(CasingStyle::Verbatim)
        } else {
            Err(ConfigError::UnknownCasingStyle)
        }
    }

    /// Parses a style name. Case, word separators and a `case` suffix are
    /// immaterial: the name is normalized before it is looked up.
    pub fn from_str(name: &str) -> (res: Result<CasingStyle, ConfigError>)
        ensures
            res == style_named(normalized_style_name(name@)),
    {
        let camel = to_upper_camel(name);
        let normalized = to_lower(camel.as_str());
        CasingStyle::from_normalized(normalized.as_str())
    }
}

} // verus!
