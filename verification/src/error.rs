//! The configuration errors that abort the resolution of a model.

use vstd::prelude::*;

verus! {

/// A directive that the kind of the model does not admit.
#[derive(Copy, Clone, PartialEq, Eq, Debug, Structural)]
pub enum KindRule {
    /// A struct-level model carries a `parse` directive.
    ParseOnStruct,
    /// A struct-level model is marked as a subcommand.
    SubcommandOnStruct,
    /// A struct-level model is marked as flattened.
    FlattenOnStruct,
    /// A flattened field carries a `parse` directive.
    ParseOnFlatten,
    /// A flattened field carries a method other than its help text.
    MethodsOnFlatten,
    /// A subcommand field carries a `parse` directive.
    ParseOnSubcommand,
    /// A subcommand field carries a method other than its help text.
    MethodsOnSubcommand,
}

/// A directive or a kind that the shape of the field's type does not admit.
#[derive(Copy, Clone, PartialEq, Eq, Debug, Structural)]
pub enum ShapeRule {
    /// A subcommand field whose type is an optional optional.
    OptionOptionSubcommand,
    /// A subcommand field whose type is an optional sequence.
    OptionVecSubcommand,
    /// `default_value` on a boolean field.
    DefaultValueOnBool,
    /// `required` on a boolean field.
    RequiredOnBool,
    /// `default_value` on an optional field.
    DefaultValueOnOption,
    /// `required` on an optional field.
    RequiredOnOption,
    /// An optional optional field with neither `short` nor `long`.
    PositionalOptionOption,
    /// An optional sequence field with neither `short` nor `long`.
    PositionalOptionVec,
}

/// Why the resolution of a model was abandoned.
#[derive(Copy, Clone, PartialEq, Eq, Debug, Structural)]
pub enum ConfigError {
    /// The name given to `rename_all` is no casing style.
    UnknownCasingStyle,
    /// The kind given to `parse` is no parser kind.
    UnknownParserKind,
    /// A second kind-changing directive on one model.
    IllegalKindTransition,
    /// The model's kind forbids one of its directives.
    IllegalDirectiveForKind(KindRule),
    /// The shape of the field's type forbids the kind or one of the directives.
    IllegalDirectiveForShape(ShapeRule),
    /// `parse(try_from_os_str)` without a conversion function.
    MissingParserFunction,
    /// The conversion function given to `parse` is not a plain path.
    InvalidParserFunctionForm,
}

impl KindRule {
    /// The text shown to the user for this rule.
    pub open spec fn reason(self) -> Seq<char> {
        match self {
            KindRule::ParseOnStruct => "parse attribute is only allowed on fields"@,
            KindRule::SubcommandOnStruct => "subcommand is only allowed on fields"@,
            KindRule::FlattenOnStruct => "flatten is only allowed on fields"@,
            KindRule::ParseOnFlatten => "parse attribute is not allowed for flattened entry"@,
            KindRule::MethodsOnFlatten =>
                "methods are not allowed for flattened entry"@,
            KindRule::ParseOnSubcommand => "parse attribute is not allowed for subcommand"@,
            KindRule::MethodsOnSubcommand =>
                "methods in attributes are not allowed for subcommand"@,
        }
    }

    /// The text shown to the user for this rule.
    pub fn message(&self) -> (res: &'static str)
        ensures
            res@ == self.reason(),
    {
        match self {
            KindRule::ParseOnStruct => "parse attribute is only allowed on fields",
            KindRule::SubcommandOnStruct => "subcommand is only allowed on fields",
            KindRule::FlattenOnStruct => "flatten is only allowed on fields",
            KindRule::ParseOnFlatten => "parse attribute is not allowed for flattened entry",
            KindRule::MethodsOnFlatten =>
                "methods are not allowed for flattened entry",
            KindRule::ParseOnSubcommand => "parse attribute is not allowed for subcommand",
            KindRule::MethodsOnSubcommand => "methods in attributes are not allowed for subcommand",
        }
    }
}

impl ShapeRule {
    /// The text shown to the user for this rule.
    pub open spec fn reason(self) -> Seq<char> {
        match self {
            ShapeRule::OptionOptionSubcommand =>
                "Option<Option<T>> type is not allowed for subcommand"@,
            ShapeRule::OptionVecSubcommand => "Option<Vec<T>> type is not allowed for subcommand"@,
            ShapeRule::DefaultValueOnBool => "default_value is meaningless for bool"@,
            ShapeRule::RequiredOnBool => "required is meaningless for bool"@,
            ShapeRule::DefaultValueOnOption => "default_value is meaningless for Option"@,
            ShapeRule::RequiredOnOption => "required is meaningless for Option"@,
            ShapeRule::PositionalOptionOption =>
                "Option<Option<T>> type is meaningless for positional argument"@,
            ShapeRule::PositionalOptionVec =>
                "Option<Vec<T>> type is meaningless for positional argument"@,
        }
    }

    /// The text shown to the user for this rule.
    pub fn message(&self) -> (res: &'static str)
        ensures
            res@ == self.reason(),
    {
        match self {
            ShapeRule::OptionOptionSubcommand =>
                "Option<Option<T>> type is not allowed for subcommand",
            ShapeRule::OptionVecSubcommand => "Option<Vec<T>> type is not allowed for subcommand",
            ShapeRule::DefaultValueOnBool => "default_value is meaningless for bool",
            ShapeRule::RequiredOnBool => "required is meaningless for bool",
            ShapeRule::DefaultValueOnOption => "default_value is meaningless for Option",
            ShapeRule::RequiredOnOption => "required is meaningless for Option",
            ShapeRule::PositionalOptionOption =>
                "Option<Option<T>> type is meaningless for positional argument",
            ShapeRule::PositionalOptionVec =>
                "Option<Vec<T>> type is meaningless for positional argument",
        }
    }
}

impl ConfigError {
    /// The text shown to the user for this error.
    pub open spec fn reason(self) -> Seq<char> {
        match self {
            ConfigError::UnknownCasingStyle => "unsupported casing"@,
            ConfigError::UnknownParserKind => "unsupported parser"@,
            ConfigError::IllegalKindTransition => "subcommands cannot be flattened"@,
            ConfigError::IllegalDirectiveForKind(rule) => rule.reason(),
            ConfigError::IllegalDirectiveForShape(rule) => rule.reason(),
            ConfigError::MissingParserFunction =>
                "cannot omit parser function name with `try_from_os_str`"@,
            ConfigError::InvalidParserFunctionForm => "`parse` argument must be a function path"@,
        }
    }

    /// The text shown to the user for this error.
    pub fn message(&self) -> (res: String)
        ensures
            res@ == self.reason(),
    {
        let text = match self {
            ConfigError::UnknownCasingStyle => "unsupported casing",
            ConfigError::UnknownParserKind => "unsupported parser",
            ConfigError::IllegalKindTransition => "subcommands cannot be flattened",
            ConfigError::IllegalDirectiveForKind(rule) => rule.message(),
            ConfigError::IllegalDirectiveForShape(rule) => rule.message(),
            ConfigError::MissingParserFunction =>
                "cannot omit parser function name with `try_from_os_str`",
            ConfigError::InvalidParserFunctionForm => "`parse` argument must be a function path",
        };
        text.to_owned()
    }
}

} // verus!
