//! The mathematical model of attribute resolution: what every step does to
//! the view of a model.

use crate::casing::{normalized_style_name, style_named, translated, CasingStyle};
use crate::directive::{ArgsView, DirectiveView, MethodView, ParseFn};
use crate::doc::doc_methods;
use crate::error::{ConfigError, KindRule, ShapeRule};
use crate::parser::{default_conversion, parser_named, Conversion, Parser};
use crate::shape::Ty;
use crate::text::replaced;
use vstd::prelude::*;

verus! {

/// How a field is consumed by the command line.
#[derive(Copy, Clone, PartialEq, Eq, Debug, Structural)]
pub enum Kind {
    Arg(Ty),
    Subcommand(Ty),
    FlattenStruct,
}

/// The view of a model.
pub struct AttrsView {
    pub name: Seq<char>,
    pub cased_name: Seq<char>,
    pub casing: CasingStyle,
    pub methods: Seq<MethodView>,
    pub parser: (Parser, Conversion),
    pub has_custom_parser: bool,
    pub kind: Kind,
}

impl AttrsView {
    /// The cased name is the name under the model's casing style.
    pub open spec fn wf(self) -> bool {
        self.cased_name == translated(self.casing, self.name)
    }
}

/// A fresh model: no methods, the default parser, a plain argument.
pub open spec fn new_model(name: Seq<char>, casing: CasingStyle) -> AttrsView {
    AttrsView {
        name,
        cased_name: translated(casing, name),
        casing,
        methods: Seq::empty(),
        parser: (Parser::TryFromStr, Conversion::FromStr),
        has_custom_parser: false,
        kind: Kind::Arg(Ty::Other),
    }
}

/// Whether some method of the list has the given name.
pub open spec fn has_method(methods: Seq<MethodView>, name: Seq<char>) -> bool {
    exists|i: int| 0 <= i < methods.len() && (#[trigger] methods[i]).name == name
}

/// The methods of the list whose name is not `name`, in their order.
pub open spec fn without(methods: Seq<MethodView>, name: Seq<char>) -> Seq<MethodView>
    decreases methods.len(),
{
    if methods.len() == 0 {
        methods
    } else if methods.last().name == name {
        without(methods.drop_last(), name)
    } else {
        without(methods.drop_last(), name).push(methods.last())
    }
}

/// Whether a string-valued directive withdraws earlier methods of its name:
/// `about`, `version` and `author`, given the empty string.
pub open spec fn cancels(name: Seq<char>, arg: Seq<char>) -> bool {
    arg.len() == 0 && (name == "about"@ || name == "version"@ || name == "author"@)
}

/// The model with one more method at the end of its list.
pub open spec fn with_method(m: AttrsView, name: Seq<char>, args: ArgsView) -> AttrsView {
    AttrsView { methods: m.methods.push(MethodView { name, args }), ..m }
}

/// The model after a string-valued directive: a cancellation, a renaming, or
/// one more method.
pub open spec fn with_str_method(m: AttrsView, name: Seq<char>, arg: Seq<char>) -> AttrsView {
    if cancels(name, arg) {
        AttrsView { methods: without(m.methods, name), ..m }
    } else if name == "name"@ {
        AttrsView { name: arg, cased_name: translated(m.casing, arg), ..m }
    } else {
        with_method(m, name, ArgsView::Literal(arg))
    }
}

/// The model promoted to `kind`, which only a plain argument can be.
pub open spec fn with_kind(m: AttrsView, kind: Kind) -> Result<AttrsView, ConfigError> {
    if m.kind is Arg {
        Ok(AttrsView { kind, ..m })
    } else {
        Err(ConfigError::IllegalKindTransition)
    }
}

/// The parser and conversion that a `parse` directive selects.
pub open spec fn parser_for(kind: Seq<char>, func: Option<ParseFn>) -> Result<
    (Parser, Conversion),
    ConfigError,
> {
    match parser_named(kind) {
        Err(e) => Err(e),
        Ok(parser) => match func {
            None => match default_conversion(parser) {
                Ok(conversion) => Ok((parser, conversion)),
                Err(e) => Err(e),
            },
            Some(ParseFn::Path(tokens)) => Ok((parser, Conversion::Function(tokens))),
            Some(ParseFn::Other(_)) => Err(ConfigError::InvalidParserFunctionForm),
        },
    }
}

/// The model after one directive, or the error with which the directive is
/// rejected.
pub open spec fn apply(m: AttrsView, d: DirectiveView) -> Result<AttrsView, ConfigError> {
    match d {
        DirectiveView::Short => Ok(with_str_method(m, "short"@, m.cased_name)),
        DirectiveView::Long => Ok(with_str_method(m, "long"@, m.cased_name)),
        DirectiveView::Subcommand => with_kind(m, Kind::Subcommand(Ty::Other)),
        DirectiveView::Flatten => with_kind(m, Kind::FlattenStruct),
        DirectiveView::NameLitStr(name, lit) => Ok(with_str_method(m, name, lit)),
        DirectiveView::NameExpr(name, expr) => Ok(with_method(m, name, ArgsView::Tokens(expr))),
        DirectiveView::MethodCall(name, args) => Ok(with_method(m, name, ArgsView::Tokens(args))),
        DirectiveView::RenameAll(style) => match style_named(normalized_style_name(style)) {
            Ok(casing) => Ok(AttrsView { casing, cased_name: translated(casing, m.name), ..m }),
            Err(e) => Err(e),
        },
        DirectiveView::Parse(kind, func) => match parser_for(kind, func) {
            Ok(parser) => Ok(AttrsView { has_custom_parser: true, parser, ..m }),
            Err(e) => Err(e),
        },
    }
}

/// Where a run of directives ends: the model reached, and the error of the
/// first directive that was rejected, if one was.
pub struct Outcome {
    pub model: AttrsView,
    pub error: Option<ConfigError>,
}

/// The directives applied from left to right, up to the first that is
/// rejected.
pub open spec fn apply_all(m: AttrsView, ds: Seq<DirectiveView>) -> Outcome
    decreases ds.len(),
{
    if ds.len() == 0 {
        Outcome { model: m, error: None }
    } else {
        match apply(m, ds.first()) {
            Ok(next) => apply_all(next, ds.drop_first()),
            Err(e) => Outcome { model: m, error: Some(e) },
        }
    }
}

/// The model with the help methods of its documentation appended.
pub open spec fn with_docs(m: AttrsView, raw: Seq<Seq<char>>, name: Seq<char>) -> AttrsView {
    AttrsView { methods: m.methods + doc_methods(raw, name), ..m }
}

/// The model with a value of the build metadata as a method, where the
/// value is present and not empty.
pub open spec fn with_metadata(m: AttrsView, name: Seq<char>, value: Option<Seq<char>>) -> AttrsView {
    match value {
        Some(v) => if v.len() > 0 {
            with_str_method(m, name, v)
        } else {
            m
        },
        None => m,
    }
}

/// The model with the authors of the build metadata as a method, where
/// they are present and not empty: separated by a comma and a space where
/// the build metadata has a colon.
pub open spec fn with_authors(m: AttrsView, author: Option<Seq<char>>) -> AttrsView {
    match author {
        Some(v) => if v.len() > 0 {
            with_str_method(m, "author"@, replaced(v, ':', ", "@))
        } else {
            m
        },
        None => m,
    }
}

/// The struct-level model before documentation and directives: fresh, with
/// the version and then the authors of the build metadata.
pub open spec fn struct_seed(
    name: Seq<char>,
    casing: CasingStyle,
    version: Option<Seq<char>>,
    author: Option<Seq<char>>,
) -> AttrsView {
    with_authors(with_metadata(new_model(name, casing), "version"@, version), author)
}

/// Whether every method of the list is help text drawn from documentation.
pub open spec fn only_doc_methods(methods: Seq<MethodView>) -> bool {
    forall|i: int|
        0 <= i < methods.len() ==> (#[trigger] methods[i]).name == "help"@ || methods[i].name
            == "long_help"@
}

/// The check of a struct-level model: no custom parser, and a plain
/// argument kind.
pub open spec fn validated_struct(m: AttrsView) -> Result<AttrsView, ConfigError> {
    if m.has_custom_parser {
        Err(ConfigError::IllegalDirectiveForKind(KindRule::ParseOnStruct))
    } else {
        match m.kind {
            Kind::Subcommand(_) => Err(
                ConfigError::IllegalDirectiveForKind(KindRule::SubcommandOnStruct),
            ),
            Kind::FlattenStruct => Err(
                ConfigError::IllegalDirectiveForKind(KindRule::FlattenOnStruct),
            ),
            Kind::Arg(_) => Ok(m),
        }
    }
}

/// The shape that a plain argument takes: a custom parser leaves only
/// optionals and sequences as they are.
pub open spec fn arg_shape(has_custom_parser: bool, shape: Ty) -> Ty {
    if has_custom_parser && shape != Ty::Option && shape != Ty::Vec {
        Ty::Other
    } else {
        shape
    }
}

/// The rule, if any, that a plain argument of the given shape breaks.
pub open spec fn arg_violation(methods: Seq<MethodView>, shape: Ty) -> Option<ShapeRule> {
    match shape {
        Ty::Bool => if has_method(methods, "default_value"@) {
            Some(ShapeRule::DefaultValueOnBool)
        } else if has_method(methods, "required"@) {
            Some(ShapeRule::RequiredOnBool)
        } else {
            None
        },
        Ty::Option => if has_method(methods, "default_value"@) {
            Some(ShapeRule::DefaultValueOnOption)
        } else if has_method(methods, "required"@) {
            Some(ShapeRule::RequiredOnOption)
        } else {
            None
        },
        Ty::OptionOption => if !(has_method(methods, "long"@) || has_method(methods, "short"@)) {
            Some(ShapeRule::PositionalOptionOption)
        } else {
            None
        },
        Ty::OptionVec => if !(has_method(methods, "long"@) || has_method(methods, "short"@)) {
            Some(ShapeRule::PositionalOptionVec)
        } else {
            None
        },
        _ => None,
    }
}

/// The check of a field-level model against the shape of the field's type.
/// A model that passes has its kind refined by the shape.
pub open spec fn validated_field(m: AttrsView, shape: Ty) -> Result<AttrsView, ConfigError> {
    match m.kind {
        Kind::FlattenStruct => {
            if m.has_custom_parser {
                Err(ConfigError::IllegalDirectiveForKind(KindRule::ParseOnFlatten))
            } else if !only_doc_methods(m.methods) {
                Err(ConfigError::IllegalDirectiveForKind(KindRule::MethodsOnFlatten))
            } else {
                Ok(m)
            }
        },
        Kind::Subcommand(_) => {
            if m.has_custom_parser {
                Err(ConfigError::IllegalDirectiveForKind(KindRule::ParseOnSubcommand))
            } else if !only_doc_methods(m.methods) {
                Err(ConfigError::IllegalDirectiveForKind(KindRule::MethodsOnSubcommand))
            } else if shape == Ty::OptionOption {
                Err(ConfigError::IllegalDirectiveForShape(ShapeRule::OptionOptionSubcommand))
            } else if shape == Ty::OptionVec {
                Err(ConfigError::IllegalDirectiveForShape(ShapeRule::OptionVecSubcommand))
            } else {
                Ok(AttrsView { kind: Kind::Subcommand(shape), ..m })
            }
        },
        Kind::Arg(_) => {
            let ty = arg_shape(m.has_custom_parser, shape);
            match arg_violation(m.methods, ty) {
                Some(rule) => Err(ConfigError::IllegalDirectiveForShape(rule)),
                None => Ok(AttrsView { kind: Kind::Arg(ty), ..m }),
            }
        },
    }
}

/// The resolution of a struct: the seeded model, its documentation under
/// `about`, its directives, and the struct-level check.
pub open spec fn struct_outcome(
    docs: Seq<Seq<char>>,
    ds: Seq<DirectiveView>,
    name: Seq<char>,
    casing: CasingStyle,
    version: Option<Seq<char>>,
    author: Option<Seq<char>>,
) -> Result<AttrsView, ConfigError> {
    let run = apply_all(with_docs(struct_seed(name, casing, version, author), docs, "about"@), ds);
    match run.error {
        Some(e) => Err(e),
        None => validated_struct(run.model),
    }
}

/// The resolution of a field: a fresh model, its documentation under
/// `help`, its directives, and the field-level check against the shape of
/// the field's type.
pub open spec fn field_outcome(
    docs: Seq<Seq<char>>,
    ds: Seq<DirectiveView>,
    name: Seq<char>,
    casing: CasingStyle,
    shape: Ty,
) -> Result<AttrsView, ConfigError> {
    let run = apply_all(with_docs(new_model(name, casing), docs, "help"@), ds);
    match run.error {
        Some(e) => Err(e),
        None => validated_field(run.model, shape),
    }
}

} // verus!
