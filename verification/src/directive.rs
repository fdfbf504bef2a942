//! Directives, as they come from the annotation parser, and methods, as they
//! go to the parser builder.

use crate::text::same_text;
use vstd::prelude::*;

verus! {

/// The conversion function written in a `parse` directive.
#[derive(Debug)]
pub enum ParseFn {
    /// A plain path to a function.
    Path(proc_macro2::TokenStream),
    /// Any other expression.
    Other(proc_macro2::TokenStream),
}

/// One directive of an annotation.
#[derive(Debug)]
pub enum Directive {
    /// `short`: use the cased name as the short flag.
    Short,
    /// `long`: use the cased name as the long flag.
    Long,
    /// `subcommand`: the field is a subcommand slot.
    Subcommand,
    /// `flatten`: the field is a flattened sub-model.
    Flatten,
    /// `name = "literal"`.
    NameLitStr(String, String),
    /// `name = <expr>`.
    NameExpr(String, proc_macro2::TokenStream),
    /// `name(<args>)`.
    MethodCall(String, proc_macro2::TokenStream),
    /// `rename_all = "style"`.
    RenameAll(String),
    /// `parse(kind)` or `parse(kind, func)`.
    Parse(String, Option<ParseFn>),
}

/// A directive with its texts as sequences of characters.
pub enum DirectiveView {
    Short,
    Long,
    Subcommand,
    Flatten,
    NameLitStr(Seq<char>, Seq<char>),
    NameExpr(Seq<char>, proc_macro2::TokenStream),
    MethodCall(Seq<char>, proc_macro2::TokenStream),
    RenameAll(Seq<char>),
    Parse(Seq<char>, Option<ParseFn>),
}

impl View for Directive {
    type V = DirectiveView;

    open spec fn view(&self) -> DirectiveView {
        match *self {
            Directive::Short => DirectiveView::Short,
            Directive::Long => DirectiveView::Long,
            Directive::Subcommand => DirectiveView::Subcommand,
            Directive::Flatten => DirectiveView::Flatten,
            Directive::NameLitStr(name, lit) => DirectiveView::NameLitStr(name@, lit@),
            Directive::NameExpr(name, expr) => DirectiveView::NameExpr(name@, expr),
            Directive::MethodCall(name, args) => DirectiveView::MethodCall(name@, args),
            Directive::RenameAll(style) => DirectiveView::RenameAll(style@),
            Directive::Parse(kind, func) => DirectiveView::Parse(kind@, func),
        }
    }
}

/// The directive that a sole identifier stands for, if it is one of the
/// four that are written so.
pub open spec fn directive_of_word(name: Seq<char>) -> Option<DirectiveView> {
    if name == "long"@ {
        Some(DirectiveView::Long)
    } else if name == "short"@ {
        Some(DirectiveView::Short)
    } else if name == "flatten"@ {
        Some(DirectiveView::Flatten)
    } else if name == "subcommand"@ {
        Some(DirectiveView::Subcommand)
    } else {
        None
    }
}

/// The directive that `name = "literal"` stands for: a change of casing
/// for `rename_all`, a string-valued method otherwise.
pub open spec fn directive_of_literal(name: Seq<char>, lit: Seq<char>) -> DirectiveView {
    if name == "rename_all"@ {
        DirectiveView::RenameAll(lit)
    } else {
        DirectiveView::NameLitStr(name, lit)
    }
}

impl Directive {
    /// Reads a directive that is written as a sole identifier. An
    /// identifier that is none of the four gives nothing.
    pub fn from_word(name: &str) -> (res: Option<Directive>)
        ensures
            match directive_of_word(name@) {
                Some(d) => res matches Some(r) && r@ == d,
                None => res is None,
            },
    {
        if same_text(name, "long") {
            Some(Directive::Long)
        } else if same_text(name, "short") {
            Some(Directive::Short)
        } else if same_text(name, "flatten") {
            Some(Directive::Flatten)
        } else if same_text(name, "subcommand") {
            Some(Directive::Subcommand)
        } else {
            None
        }
    }

    /// Reads a directive that is written as `name = "literal"`.
    pub fn from_literal(name: String, lit: String) -> (res: Directive)
        ensures
            res@ == directive_of_literal(name@, lit@),
    {
        if same_text(name.as_str(), "rename_all") {
            Directive::RenameAll(lit)
        } else {
            Directive::NameLitStr(name, lit)
        }
    }
}

/// The directives held by a sequence, each by its view.
pub open spec fn directive_views(v: Seq<Directive>) -> Seq<DirectiveView> {
    v.map_values(|d: Directive| d@)
}

/// The argument of a builder method.
#[derive(Debug)]
pub enum Args {
    /// A string literal.
    Literal(String),
    /// An expression or an argument list, carried unevaluated.
    Tokens(proc_macro2::TokenStream),
}

/// The argument of a builder method, a literal by its characters.
pub enum ArgsView {
    Literal(Seq<char>),
    Tokens(proc_macro2::TokenStream),
}

impl View for Args {
    type V = ArgsView;

    open spec fn view(&self) -> ArgsView {
        match *self {
            Args::Literal(s) => ArgsView::Literal(s@),
            Args::Tokens(t) => ArgsView::Tokens(t),
        }
    }
}

/// One call on the parser builder: the method's name and its argument.
#[derive(Debug)]
pub struct Method {
    pub name: String,
    pub args: Args,
}

/// A builder method with its texts as sequences of characters.
pub struct MethodView {
    pub name: Seq<char>,
    pub args: ArgsView,
}

impl View for Method {
    type V = MethodView;

    open spec fn view(&self) -> MethodView {
        MethodView { name: self.name@, args: self.args@ }
    }
}

impl Method {
    /// Whether the builder is given only the first character of the
    /// argument, as it is for `short`.
    pub fn takes_first_char(&self) -> (res: bool)
        ensures
            res == (self@.name == "short"@),
    {
        same_text(self.name.as_str(), "short")
    }
}

/// The methods held by a sequence, each by its view.
pub open spec fn method_views(v: Seq<Method>) -> Seq<MethodView> {
    v.map_values(|m: Method| m@)
}

} // verus!
