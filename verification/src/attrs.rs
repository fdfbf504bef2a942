//! The attribute model of a struct or a field, and the functions that build,
//! check and read it.

use crate::casing::CasingStyle;
use crate::directive::{directive_views, method_views, Args, Directive, Method, MethodView, ParseFn};
use crate::doc::{doc_methods, prepare_lines};
use crate::error::{ConfigError, KindRule, ShapeRule};
use crate::laws::outcomes_are_well_formed;
use crate::model::{
    apply, apply_all, arg_violation, field_outcome, has_method, new_model, only_doc_methods,
    parser_for, struct_outcome, validated_field, validated_struct, with_docs, with_kind,
    with_method, with_str_method, without, AttrsView, Kind,
};
use crate::parser::{Conversion, Parser};
use crate::shape::{head, shape_of, sub_type, Ty, TypeDesc};
use crate::text::{
    join_with, replace_char, same_text, split_at_char, texts, trim, trim_all, trim_end_matches,
};
use vstd::prelude::*;

verus! {

/// The resolved attributes of one struct or one field.
#[derive(Debug)]
pub struct Attrs {
    name: String,
    cased_name: String,
    casing: CasingStyle,
    methods: Vec<Method>,
    parser: (Parser, Conversion),
    has_custom_parser: bool,
    kind: Kind,
}

impl View for Attrs {
    type V = AttrsView;

    closed spec fn view(&self) -> AttrsView {
        AttrsView {
            name: self.name@,
            cased_name: self.cased_name@,
            casing: self.casing,
            methods: method_views(self.methods@),
            parser: self.parser,
            has_custom_parser: self.has_custom_parser,
            kind: self.kind,
        }
    }
}

/// The methods of `methods` whose name is not `name`, in their order.
fn retain_other(methods: Vec<Method>, name: &str) -> (res: Vec<Method>)
    ensures
        method_views(res@) == without(method_views(methods@), name@),
{
    let ghost all = method_views(methods@);
    let mut kept: Vec<Method> = Vec::new();
    assert(all.take(0) =~= Seq::<MethodView>::empty());
    for m in it: methods
        invariant
            method_views(it.seq()) == all,
            method_views(kept@) == without(all.take(it.index()), name@),
    {
        let ghost before = method_views(kept@);
        assert(all.take(it.index() + 1).drop_last() =~= all.take(it.index()));
        assert(all.take(it.index() + 1).last() == m@);
        if !same_text(m.name.as_str(), name) {
            kept.push(m);
            assert(method_views(kept@) =~= before.push(m@));
        }
    }
    assert(all.take(all.len() as int) =~= all);
    kept
}

/// The parser and conversion that a `parse` directive selects.
pub fn select_parser(kind: &str, func: Option<ParseFn>) -> (res: Result<
    (Parser, Conversion),
    ConfigError,
>)
    ensures
        res == parser_for(kind@, func),
{
    match Parser::from_str(kind) {
        Err(e) => Err(e),
        Ok(parser) => match func {
            None => match parser.default_conversion() {
                Ok(conversion) => Ok((parser, conversion)),
                Err(e) => Err(e),
            },
            Some(ParseFn::Path(tokens)) => Ok((parser, Conversion::Function(tokens))),
            Some(ParseFn::Other(_)) => Err(ConfigError::InvalidParserFunctionForm),
        },
    }
}

/// Whether a result holds what the model of the resolution says: the same
/// error, or a model with the view that was reached.
pub open spec fn resolves_to(
    res: Result<Attrs, ConfigError>,
    outcome: Result<AttrsView, ConfigError>,
) -> bool {
    match outcome {
        Ok(m) => res matches Ok(attrs) && attrs@ == m,
        Err(e) => res matches Err(x) && x == e,
    }
}

/// The text of an optional string.
pub open spec fn opt_text(s: Option<String>) -> Option<Seq<char>> {
    match s {
        Some(s) => Some(s@),
        None => None,
    }
}

impl Attrs {
    /// A fresh model for `name` under `casing`.
    pub fn new(name: String, casing: CasingStyle) -> (res: Attrs)
        ensures
            res@ == new_model(name@, casing),
            res@.wf(),
    {
        let cased_name = casing.translate(name.as_str());
        let res = Attrs {
            name,
            cased_name,
            casing,
            methods: Vec::new(),
            parser: (Parser::TryFromStr, Conversion::FromStr),
            has_custom_parser: false,
            kind: Kind::Arg(Ty::Other),
        };
        assert(res@.methods =~= Seq::<MethodView>::empty());
        res
    }

    /// Appends one method to the list.
    pub fn push_method(&mut self, name: String, args: Args)
        ensures
            final(self)@ == with_method(old(self)@, name@, args@),
    {
        let ghost before = method_views(self.methods@);
        let method = Method { name, args };
        self.methods.push(method);
        assert(method_views(self.methods@) =~= before.push(method@));
    }

    /// Applies a string-valued directive. The empty string given to `about`,
    /// `version` or `author` withdraws every earlier method of that name;
    /// `name` renames the model; anything else becomes one more method.
    pub fn push_str_method(&mut self, name: &str, arg: &str)
        ensures
            final(self)@ == with_str_method(old(self)@, name@, arg@),
    {
        if arg.is_empty() && (same_text(name, "about") || same_text(name, "version") || same_text(
            name,
            "author",
        )) {
            let mut taken: Vec<Method> = Vec::new();
            core::mem::swap(&mut self.methods, &mut taken);
            self.methods = retain_other(taken, name);
        } else if same_text(name, "name") {
            self.name = arg.to_owned();
            self.cased_name = self.casing.translate(arg);
        } else {
            self.push_method(name.to_owned(), Args::Literal(arg.to_owned()));
        }
    }

    /// Promotes a plain argument to `kind`. A model that was promoted before
    /// stays as it is, and the call is an error.
    pub fn set_kind(&mut self, kind: Kind) -> (res: Result<(), ConfigError>)
        ensures
            match with_kind(old(self)@, kind) {
                Ok(m) => res is Ok && final(self)@ == m,
                Err(e) => res == Err::<(), ConfigError>(e) && final(self)@ == old(self)@,
            },
    {
        match self.kind {
            Kind::Arg(_) => {
                self.kind = kind;
                Ok(())
            },
            _ => Err(ConfigError::IllegalKindTransition),
        }
    }

    /// Applies one directive. A directive that is rejected leaves the model
    /// as it was.
    pub fn push_attr(&mut self, attr: Directive) -> (res: Result<(), ConfigError>)
        ensures
            match apply(old(self)@, attr@) {
                Ok(m) => res is Ok && final(self)@ == m,
                Err(e) => res == Err::<(), ConfigError>(e) && final(self)@ == old(self)@,
            },
    {
        match attr {
            Directive::Short => {
                let cased_name = self.cased_name.clone();
                self.push_str_method("short", cased_name.as_str());
                Ok(())
            },
            Directive::Long => {
                let cased_name = self.cased_name.clone();
                self.push_str_method("long", cased_name.as_str());
                Ok(())
            },
            Directive::Subcommand => self.set_kind(Kind::Subcommand(Ty::Other)),
            Directive::Flatten => self.set_kind(Kind::FlattenStruct),
            Directive::NameLitStr(name, lit) => {
                self.push_str_method(name.as_str(), lit.as_str());
                Ok(())
            },
            Directive::NameExpr(name, expr) => {
                self.push_method(name, Args::Tokens(expr));
                Ok(())
            },
            Directive::MethodCall(name, args) => {
                self.push_method(name, Args::Tokens(args));
                Ok(())
            },
            Directive::RenameAll(style) => match CasingStyle::from_str(style.as_str()) {
                Ok(casing) => {
                    self.casing = casing;
                    self.cased_name = self.casing.translate(self.name.as_str());
                    Ok(())
                },
                Err(e) => Err(e),
            },
            Directive::Parse(kind, func) => match select_parser(kind.as_str(), func) {
                Ok(parser) => {
                    self.has_custom_parser = true;
                    self.parser = parser;
                    Ok(())
                },
                Err(e) => Err(e),
            },
        }
    }

    /// Applies the directives from left to right and stops at the first that
    /// is rejected: the model then is what the directives before it made.
    pub fn push_attrs(&mut self, attrs: Vec<Directive>) -> (res: Result<(), ConfigError>)
        ensures
            final(self)@ == apply_all(old(self)@, directive_views(attrs@)).model,
            match apply_all(old(self)@, directive_views(attrs@)).error {
                None => res is Ok,
                Some(e) => res == Err::<(), ConfigError>(e),
            },
    {
        let ghost all = directive_views(attrs@);
        let ghost start = self@;
        assert(all.skip(0) =~= all);
        for attr in it: attrs
            invariant
                start == old(self)@,
                all == directive_views(attrs@),
                directive_views(it.seq()) == all,
                apply_all(start, all) == apply_all(self@, all.skip(it.index())),
        {
            assert(all.skip(it.index()).first() == attr@);
            assert(all.skip(it.index()).drop_first() =~= all.skip(it.index() + 1));
            match self.push_attr(attr) {
                Ok(()) => {},
                Err(e) => {
                    return Err(e);
                },
            }
        }
        Ok(())
    }

    /// Turns the documentation of the struct or field into help methods
    /// under the method name `name`.
    pub fn push_doc_comment(&mut self, docs: &Vec<String>, name: &str)
        ensures
            final(self)@ == with_docs(old(self)@, texts(docs@), name@),
    {
        let ghost before = self@.methods;
        let lines = prepare_lines(docs);
        if lines.len() == 0 {
            assert(before + Seq::<MethodView>::empty() =~= before);
            return ;
        }
        let joined = join_with(&lines, " ");
        let pieces = split_at_char(joined.as_str(), '\n');
        let stripped = trim_all(&pieces);
        let merged_lines = join_with(&stripped, "\n");
        if lines.len() > 2 && same_text(lines[1].as_str(), "\n\n") {
            let mut long_name = "long_".to_owned();
            long_name.append(name);
            self.push_method(long_name, Args::Literal(merged_lines));
            let short_arg = trim_end_matches(trim(lines[0].as_str()), '.');
            self.push_method(name.to_owned(), Args::Literal(short_arg.to_owned()));
            assert(self@.methods =~= before + doc_methods(texts(docs@), name@));
        } else {
            self.push_method(name.to_owned(), Args::Literal(merged_lines));
            assert(self@.methods =~= before + doc_methods(texts(docs@), name@));
        }
    }

    /// Classifies the declared type of a field by its outermost constructor
    /// and, for an optional, by the outermost constructor of what it wraps.
    pub fn ty_from_field(ty: &TypeDesc) -> (res: Ty)
        ensures
            res == shape_of(*ty),
    {
        match head(ty) {
            Ty::Option => match sub_type(ty) {
                Some(inner) => match head(inner) {
                    Ty::Option => Ty::OptionOption,
                    Ty::Vec => Ty::OptionVec,
                    _ => Ty::Option,
                },
                None => Ty::Option,
            },
            shape => shape,
        }
    }

    /// Whether every method is help text drawn from documentation.
    pub fn has_only_doc_methods(&self) -> (res: bool)
        ensures
            res == only_doc_methods(self@.methods),
    {
        let n = self.methods.len();
        let mut i: usize = 0;
        while i < n
            invariant
                i <= n,
                n == self.methods@.len(),
                forall|j: int|
                    0 <= j < i ==> (#[trigger] self.methods@[j]).name@ == "help"@
                        || self.methods@[j].name@ == "long_help"@,
            decreases n - i,
        {
            let name = self.methods[i].name.as_str();
            if !(same_text(name, "help") || same_text(name, "long_help")) {
                assert(method_views(self.methods@)[i as int].name == name@);
                return false;
            }
            i += 1;
        }
        assert forall|j: int| 0 <= j < self@.methods.len() implies (#[trigger] self@.methods[j]).name
            == "help"@ || self@.methods[j].name == "long_help"@ by {
            assert(self.methods@[j].name@ == "help"@ || self.methods@[j].name@ == "long_help"@);
        }
        true
    }

    /// Checks a struct-level model: it may have no custom parser and must be
    /// a plain argument.
    pub fn validate_struct(self) -> (res: Result<Attrs, ConfigError>)
        ensures
            resolves_to(res, validated_struct(self@)),
    {
        if self.has_custom_parser {
            return Err(ConfigError::IllegalDirectiveForKind(KindRule::ParseOnStruct));
        }
        match self.kind {
            Kind::Subcommand(_) => Err(
                ConfigError::IllegalDirectiveForKind(KindRule::SubcommandOnStruct),
            ),
            Kind::FlattenStruct => Err(
                ConfigError::IllegalDirectiveForKind(KindRule::FlattenOnStruct),
            ),
            Kind::Arg(_) => Ok(self),
        }
    }

    /// The rule, if any, that this model breaks as a plain argument of the
    /// given shape.
    pub fn arg_violation(&self, shape: Ty) -> (res: Option<ShapeRule>)
        ensures
            res == arg_violation(self@.methods, shape),
    {
        match shape {
            Ty::Bool => {
                if self.has_method("default_value") {
                    Some(ShapeRule::DefaultValueOnBool)
                } else if self.has_method("required") {
                    Some(ShapeRule::RequiredOnBool)
                } else {
                    None
                }
            },
            Ty::Option => {
                if self.has_method("default_value") {
                    Some(ShapeRule::DefaultValueOnOption)
                } else if self.has_method("required") {
                    Some(ShapeRule::RequiredOnOption)
                } else {
                    None
                }
            },
            Ty::OptionOption => {
                if !(self.has_method("long") || self.has_method("short")) {
                    Some(ShapeRule::PositionalOptionOption)
                } else {
                    None
                }
            },
            Ty::OptionVec => {
                if !(self.has_method("long") || self.has_method("short")) {
                    Some(ShapeRule::PositionalOptionVec)
                } else {
                    None
                }
            },
            _ => None,
        }
    }

    /// Checks a field-level model against the shape of the field's type and
    /// refines its kind by that shape.
    pub fn validate_field(self, shape: Ty) -> (res: Result<Attrs, ConfigError>)
        ensures
            resolves_to(res, validated_field(self@, shape)),
    {
        let mut res = self;
        match res.kind {
            Kind::FlattenStruct => {
                if res.has_custom_parser {
                    return Err(ConfigError::IllegalDirectiveForKind(KindRule::ParseOnFlatten));
                }
                if !res.has_only_doc_methods() {
                    return Err(ConfigError::IllegalDirectiveForKind(KindRule::MethodsOnFlatten));
                }
            },
            Kind::Subcommand(_) => {
                if res.has_custom_parser {
                    return Err(ConfigError::IllegalDirectiveForKind(KindRule::ParseOnSubcommand));
                }
                if !res.has_only_doc_methods() {
                    return Err(
                        ConfigError::IllegalDirectiveForKind(KindRule::MethodsOnSubcommand),
                    );
                }
                match shape {
                    Ty::OptionOption => {
                        return Err(
                            ConfigError::IllegalDirectiveForShape(
                                ShapeRule::OptionOptionSubcommand,
                            ),
                        );
                    },
                    Ty::OptionVec => {
                        return Err(
                            ConfigError::IllegalDirectiveForShape(ShapeRule::OptionVecSubcommand),
                        );
                    },
                    _ => {},
                }
                res.kind = Kind::Subcommand(shape);
            },
            Kind::Arg(_) => {
                let mut ty = shape;
                if res.has_custom_parser {
                    match ty {
                        Ty::Option | Ty::Vec => {},
                        _ => {
                            ty = Ty::Other;
                        },
                    }
                }
                match res.arg_violation(ty) {
                    Some(rule) => {
                        return Err(ConfigError::IllegalDirectiveForShape(rule));
                    },
                    None => {},
                }
                res.kind = Kind::Arg(ty);
            },
        }
        Ok(res)
    }

    /// Resolves the attributes of a struct: the version and the authors of
    /// the build metadata where they are present and not empty, the
    /// documentation as `about`, then the directives, then the struct-level
    /// check.
    pub fn from_struct(
        docs: &Vec<String>,
        attrs: Vec<Directive>,
        name: String,
        argument_casing: CasingStyle,
        version: Option<String>,
        author: Option<String>,
    ) -> (res: Result<Attrs, ConfigError>)
        ensures
            resolves_to(
                res,
                struct_outcome(
                    texts(docs@),
                    directive_views(attrs@),
                    name@,
                    argument_casing,
                    opt_text(version),
                    opt_text(author),
                ),
            ),
            res matches Ok(attrs) ==> attrs@.wf() && attrs@.kind is Arg
                && !attrs@.has_custom_parser,
    {
        proof {
            outcomes_are_well_formed(
                texts(docs@),
                directive_views(attrs@),
                name@,
                argument_casing,
                opt_text(version),
                opt_text(author),
                Ty::Other,
            );
        }
        let mut res = Attrs::new(name, argument_casing);
        match version {
            Some(value) => {
                if !value.as_str().is_empty() {
                    res.push_str_method("version", value.as_str());
                }
            },
            None => {},
        }
        match author {
            Some(value) => {
                if !value.as_str().is_empty() {
                    let list = replace_char(value.as_str(), ':', ", ");
                    res.push_str_method("author", list.as_str());
                }
            },
            None => {},
        }
        res.push_doc_comment(docs, "about");
        match res.push_attrs(attrs) {
            Err(e) => Err(e),
            Ok(()) => res.validate_struct(),
        }
    }

    /// Resolves the attributes of a field: the documentation as `help`, then
    /// the directives, then the field-level check against the shape of the
    /// field's type.
    pub fn from_field(
        docs: &Vec<String>,
        attrs: Vec<Directive>,
        name: String,
        ty: &TypeDesc,
        struct_casing: CasingStyle,
    ) -> (res: Result<Attrs, ConfigError>)
        ensures
            resolves_to(
                res,
                field_outcome(
                    texts(docs@),
                    directive_views(attrs@),
                    name@,
                    struct_casing,
                    shape_of(*ty),
                ),
            ),
            res matches Ok(attrs) ==> attrs@.wf(),
    {
        proof {
            outcomes_are_well_formed(
                texts(docs@),
                directive_views(attrs@),
                name@,
                struct_casing,
                None,
                None,
                shape_of(*ty),
            );
        }
        let mut res = Attrs::new(name, struct_casing);
        res.push_doc_comment(docs, "help");
        match res.push_attrs(attrs) {
            Err(e) => Err(e),
            Ok(()) => res.validate_field(Attrs::ty_from_field(ty)),
        }
    }

    /// Whether the list holds a method of the given name.
    pub fn has_method(&self, method: &str) -> (res: bool)
        ensures
            res == has_method(self@.methods, method@),
    {
        let n = self.methods.len();
        let mut i: usize = 0;
        while i < n
            invariant
                i <= n,
                n == self.methods@.len(),
                forall|j: int| 0 <= j < i ==> (#[trigger] self.methods@[j]).name@ != method@,
            decreases n - i,
        {
            if same_text(self.methods[i].name.as_str(), method) {
                assert(method_views(self.methods@)[i as int].name == method@);
                return true;
            }
            i += 1;
        }
        assert forall|j: int| 0 <= j < self@.methods.len() implies (#[trigger] self@.methods[j]).name
            != method@ by {
            assert(self.methods@[j].name@ != method@);
        }
        false
    }

    /// The methods to call on the parser builder, in the order of the calls.
    pub fn methods(&self) -> (res: &Vec<Method>)
        ensures
            method_views(res@) == self@.methods,
    {
        &self.methods
    }

    /// Hands the resolved model on: its kind, its parser with the
    /// conversion, and its methods in the order of the calls.
    pub fn assemble(self) -> (res: (Kind, (Parser, Conversion), Vec<Method>))
        ensures
            res.0 == self@.kind,
            res.1 == self@.parser,
            method_views(res.2@) == self@.methods,
    {
        (self.kind, self.parser, self.methods)
    }

    /// The name under the model's casing style.
    pub fn cased_name(&self) -> (res: &str)
        ensures
            res@ == self@.cased_name,
    {
        self.cased_name.as_str()
    }

    /// The parser and its conversion.
    pub fn parser(&self) -> (res: &(Parser, Conversion))
        ensures
            *res == self@.parser,
    {
        &self.parser
    }

    /// The kind of the model.
    pub fn kind(&self) -> (res: Kind)
        ensures
            res == self@.kind,
    {
        self.kind
    }

    /// The casing style of the model.
    pub fn casing(&self) -> (res: CasingStyle)
        ensures
            res == self@.casing,
    {
        self.casing
    }
}

/// What a generation step hands on: the tokens it produced and the
/// attributes of the element it produced them for.
pub struct GenOutput {
    pub tokens: proc_macro2::TokenStream,
    pub attrs: Attrs,
}

} // verus!
