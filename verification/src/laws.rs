//! Laws of the resolution: what holds of every model and every run of
//! directives.

use crate::casing::{translated, CasingStyle};
use crate::directive::{DirectiveView, MethodView};
use crate::doc::doc_methods;
use crate::error::{ConfigError, ShapeRule};
use crate::model::{
    apply, apply_all, cancels, field_outcome, has_method, new_model, only_doc_methods,
    struct_outcome, struct_seed, validated_field, validated_struct, with_authors, with_docs,
    with_metadata, with_str_method, without, AttrsView, Kind,
};
use crate::shape::{head_shape, shape_of, sub_type_of, Ty, TypeDesc};
use crate::text::{is_white_space, join, replaced, split, trim_end, trim_start, trimmed};
use vstd::prelude::*;

verus! {

/// Under the verbatim style every text is its own display name, so that
/// translating a display name once more changes nothing.
pub proof fn verbatim_is_idempotent(input: Seq<char>)
    ensures
        translated(CasingStyle::Verbatim, input) == input,
        translated(CasingStyle::Verbatim, translated(CasingStyle::Verbatim, input)) == translated(
            CasingStyle::Verbatim,
            input,
        ),
{
}

/// The shape of a type is settled by its outermost constructor and, where
/// it has a single type argument, by the outermost constructor of that
/// argument: two types that agree in these have the same shape, whatever
/// lies deeper.
pub proof fn shape_reads_two_levels(a: TypeDesc, b: TypeDesc)
    requires
        head_shape(a) == head_shape(b),
        sub_type_of(a) is Some <==> sub_type_of(b) is Some,
        sub_type_of(a) is Some ==> head_shape(sub_type_of(a)->0) == head_shape(sub_type_of(b)->0),
    ensures
        shape_of(a) == shape_of(b),
{
}

/// Only an optional is refined: every other type has the shape of its
/// outermost constructor, and an optional is never a boolean, a sequence or
/// `Other`.
pub proof fn only_optionals_are_refined(ty: TypeDesc)
    ensures
        head_shape(ty) != Ty::Option ==> shape_of(ty) == head_shape(ty),
        head_shape(ty) == Ty::Option ==> shape_of(ty) == Ty::Option || shape_of(ty)
            == Ty::OptionOption || shape_of(ty) == Ty::OptionVec,
{
}

/// A text that was stripped neither starts nor ends with whitespace, and
/// stripping it again changes nothing.
pub proof fn trimmed_has_no_margin(s: Seq<char>)
    ensures
        trimmed(s).len() > 0 ==> !is_white_space(trimmed(s).first()) && !is_white_space(
            trimmed(s).last(),
        ),
        trimmed(trimmed(s)) == trimmed(s),
{
    trim_start_has_no_lead(s);
    trim_end_keeps_lead(trim_start(s));
    trim_end_has_no_tail(trim_start(s));
}

/// What is left after leading whitespace is removed does not start with
/// whitespace.
pub proof fn trim_start_has_no_lead(s: Seq<char>)
    ensures
        trim_start(s).len() > 0 ==> !is_white_space(trim_start(s).first()),
    decreases s.len(),
{
    if s.len() > 0 && is_white_space(s[0]) {
        trim_start_has_no_lead(s.drop_first());
    }
}

/// What is left after trailing whitespace is removed does not end with
/// whitespace.
pub proof fn trim_end_has_no_tail(s: Seq<char>)
    ensures
        trim_end(s).len() > 0 ==> !is_white_space(trim_end(s).last()),
    decreases s.len(),
{
    if s.len() > 0 && is_white_space(s.last()) {
        trim_end_has_no_tail(s.drop_last());
    }
}

/// Removing trailing whitespace does not touch the first character.
pub proof fn trim_end_keeps_lead(s: Seq<char>)
    ensures
        trim_end(s).len() <= s.len(),
        trim_end(s).len() > 0 ==> trim_end(s).first() == s.first(),
    decreases s.len(),
{
    if s.len() > 0 && is_white_space(s.last()) {
        trim_end_keeps_lead(s.drop_last());
    }
}

/// Joining the pieces of a text with the separator at which it was cut
/// gives the text back.
pub proof fn join_undoes_split(s: Seq<char>, sep: char)
    ensures
        split(s, sep).len() >= 1,
        join(split(s, sep), seq![sep]) == s,
        replaced(s, sep, seq![sep]) == s,
    decreases s.len(),
{
    if s.len() > 0 {
        let init = split(s.drop_last(), sep);
        join_undoes_split(s.drop_last(), sep);
        if s.last() == sep {
            let parts = init.push(Seq::<char>::empty());
            assert(parts.drop_last() =~= init);
            assert(join(parts, seq![sep]) =~= s);
        } else {
            let last = init.last().push(s.last());
            let parts = init.update(init.len() - 1, last);
            if init.len() == 1 {
                assert(join(parts, seq![sep]) =~= s);
            } else {
                assert(parts.drop_last() =~= init.drop_last());
                assert(join(parts, seq![sep]) =~= join(init, seq![sep]).push(s.last()));
                assert(s.drop_last().push(s.last()) =~= s);
            }
        }
    } else {
        assert(join(split(s, sep), seq![sep]) =~= s);
    }
}

/// Without documentation a model stays as it is.
pub proof fn no_docs_no_methods(m: AttrsView, name: Seq<char>)
    ensures
        doc_methods(Seq::empty(), name).len() == 0,
        with_docs(m, Seq::empty(), name) == m,
{
    assert(m.methods + doc_methods(Seq::empty(), name) =~= m.methods);
}

/// Documentation adds at most two methods, after those that are there, and
/// where it has any line one of them has the given name.
pub proof fn docs_append(m: AttrsView, raw: Seq<Seq<char>>, name: Seq<char>)
    ensures
        with_docs(m, raw, name).methods.len() <= m.methods.len() + 2,
        with_docs(m, raw, name).methods.take(m.methods.len() as int) == m.methods,
        raw.len() > 0 ==> has_method(with_docs(m, raw, name).methods, name),
{
    let added = doc_methods(raw, name);
    let all = with_docs(m, raw, name).methods;
    assert(all.take(m.methods.len() as int) =~= m.methods);
    if raw.len() > 0 {
        assert(all[all.len() - 1].name == name);
    }
}

/// A fresh model is well formed, a plain argument, and has no custom parser.
pub proof fn new_model_is_well_formed(name: Seq<char>, casing: CasingStyle)
    ensures
        new_model(name, casing).wf(),
        new_model(name, casing).kind == Kind::Arg(Ty::Other),
        !new_model(name, casing).has_custom_parser,
{
}

/// A string-valued directive leaves the cased name in step with the name
/// and the casing style, and touches neither kind nor parser.
pub proof fn str_method_preserves_wf(m: AttrsView, name: Seq<char>, arg: Seq<char>)
    requires
        m.wf(),
    ensures
        with_str_method(m, name, arg).wf(),
        with_str_method(m, name, arg).kind == m.kind,
        with_str_method(m, name, arg).has_custom_parser == m.has_custom_parser,
{
}

/// No directive leaves a stale cased name behind: after every accepted
/// directive the cased name is the name under the casing style.
pub proof fn apply_preserves_wf(m: AttrsView, d: DirectiveView)
    requires
        m.wf(),
    ensures
        apply(m, d) matches Ok(next) ==> next.wf(),
{
}

/// A run of directives ends in a well-formed model, whether or not a
/// directive was rejected.
pub proof fn apply_all_preserves_wf(m: AttrsView, ds: Seq<DirectiveView>)
    requires
        m.wf(),
    ensures
        apply_all(m, ds).model.wf(),
    decreases ds.len(),
{
    if ds.len() > 0 {
        match apply(m, ds.first()) {
            Ok(next) => {
                apply_preserves_wf(m, ds.first());
                apply_all_preserves_wf(next, ds.drop_first());
            },
            Err(_) => {},
        }
    }
}

/// Every model that the resolution of a struct or of a field yields is well
/// formed.
pub proof fn outcomes_are_well_formed(
    docs: Seq<Seq<char>>,
    ds: Seq<DirectiveView>,
    name: Seq<char>,
    casing: CasingStyle,
    version: Option<Seq<char>>,
    author: Option<Seq<char>>,
    shape: Ty,
)
    ensures
        struct_outcome(docs, ds, name, casing, version, author) matches Ok(m) ==> m.wf(),
        field_outcome(docs, ds, name, casing, shape) matches Ok(m) ==> m.wf(),
{
    let fresh = new_model(name, casing);
    let versioned = with_metadata(fresh, "version"@, version);
    let seeded = struct_seed(name, casing, version, author);
    assert(versioned.wf());
    assert(seeded.wf());
    apply_all_preserves_wf(with_docs(seeded, docs, "about"@), ds);
    apply_all_preserves_wf(with_docs(fresh, docs, "help"@), ds);
}

/// Whether a directive changes the kind of a model.
pub open spec fn is_promotion(d: DirectiveView) -> bool {
    d is Subcommand || d is Flatten
}

/// Once a model is no plain argument, its kind is frozen: an accepted
/// directive leaves it as it is, and a kind-changing directive is rejected.
pub proof fn kind_is_frozen(m: AttrsView, d: DirectiveView)
    requires
        !(m.kind is Arg),
    ensures
        apply(m, d) matches Ok(next) ==> next.kind == m.kind,
        is_promotion(d) ==> apply(m, d) == Err::<AttrsView, ConfigError>(
            ConfigError::IllegalKindTransition,
        ),
{
}

/// A kind-changing directive that is accepted leaves a model that is no
/// plain argument.
pub proof fn promotion_leaves_arg(m: AttrsView, d: DirectiveView)
    requires
        is_promotion(d),
    ensures
        apply(m, d) matches Ok(next) ==> !(next.kind is Arg),
        apply(m, d) is Err ==> apply(m, d) == Err::<AttrsView, ConfigError>(
            ConfigError::IllegalKindTransition,
        ),
{
}

/// A run that holds a kind-changing directive, on a model that is no plain
/// argument, is rejected.
pub proof fn frozen_kind_rejects_promotion(m: AttrsView, ds: Seq<DirectiveView>, j: int)
    requires
        !(m.kind is Arg),
        0 <= j < ds.len(),
        is_promotion(ds[j]),
    ensures
        apply_all(m, ds).error is Some,
    decreases ds.len(),
{
    kind_is_frozen(m, ds.first());
    match apply(m, ds.first()) {
        Ok(next) => {
            assert(j > 0);
            assert(ds.drop_first()[j - 1] == ds[j]);
            frozen_kind_rejects_promotion(next, ds.drop_first(), j - 1);
        },
        Err(_) => {},
    }
}

/// Kind promotion is one-shot: a run of directives that holds two
/// kind-changing directives is rejected, whatever the two are, in whatever
/// order, and whatever stands around them.
pub proof fn second_promotion_is_fatal(m: AttrsView, ds: Seq<DirectiveView>, i: int, j: int)
    requires
        0 <= i < j < ds.len(),
        is_promotion(ds[i]),
        is_promotion(ds[j]),
    ensures
        apply_all(m, ds).error is Some,
    decreases ds.len(),
{
    match apply(m, ds.first()) {
        Ok(next) => {
            assert(ds.drop_first()[j - 1] == ds[j]);
            if i == 0 {
                promotion_leaves_arg(m, ds.first());
                frozen_kind_rejects_promotion(next, ds.drop_first(), j - 1);
            } else {
                assert(ds.drop_first()[i - 1] == ds[i]);
                second_promotion_is_fatal(next, ds.drop_first(), i - 1, j - 1);
            }
        },
        Err(_) => {},
    }
}

/// `subcommand` then `flatten`, and `flatten` then `subcommand`, are
/// rejected on every model as an illegal kind transition.
pub proof fn subcommand_and_flatten_exclude_each_other(m: AttrsView)
    ensures
        apply_all(m, seq![DirectiveView::Subcommand, DirectiveView::Flatten]).error == Some(
            ConfigError::IllegalKindTransition,
        ),
        apply_all(m, seq![DirectiveView::Flatten, DirectiveView::Subcommand]).error == Some(
            ConfigError::IllegalKindTransition,
        ),
{
    let first = seq![DirectiveView::Subcommand, DirectiveView::Flatten];
    let second = seq![DirectiveView::Flatten, DirectiveView::Subcommand];
    assert(first.drop_first() =~= seq![DirectiveView::Flatten]);
    assert(second.drop_first() =~= seq![DirectiveView::Subcommand]);
    assert(first.drop_first().drop_first().len() == 0);
    assert(second.drop_first().drop_first().len() == 0);
    reveal_with_fuel(apply_all, 3);
}

/// The resolution of a field or of a struct whose directives hold two
/// kind-changing directives fails.
pub proof fn two_promotions_fail_the_resolution(
    docs: Seq<Seq<char>>,
    ds: Seq<DirectiveView>,
    name: Seq<char>,
    casing: CasingStyle,
    version: Option<Seq<char>>,
    author: Option<Seq<char>>,
    shape: Ty,
    i: int,
    j: int,
)
    requires
        0 <= i < j < ds.len(),
        is_promotion(ds[i]),
        is_promotion(ds[j]),
    ensures
        field_outcome(docs, ds, name, casing, shape) is Err,
        struct_outcome(docs, ds, name, casing, version, author) is Err,
{
    second_promotion_is_fatal(with_docs(new_model(name, casing), docs, "help"@), ds, i, j);
    second_promotion_is_fatal(
        with_docs(struct_seed(name, casing, version, author), docs, "about"@),
        ds,
        i,
        j,
    );
}

/// The custom-parser flag is never reset: an accepted directive leaves it
/// set where it was set, and sets it exactly where it is a `parse`
/// directive.
pub proof fn custom_parser_is_sticky(m: AttrsView, d: DirectiveView)
    ensures
        apply(m, d) matches Ok(next) ==> next.has_custom_parser == (m.has_custom_parser
            || d is Parse),
{
}

/// After a run in which no directive was rejected, the custom-parser flag
/// is set if and only if it was set before or the run holds a `parse`
/// directive.
pub proof fn custom_parser_records_parse(m: AttrsView, ds: Seq<DirectiveView>)
    requires
        apply_all(m, ds).error is None,
    ensures
        apply_all(m, ds).model.has_custom_parser == (m.has_custom_parser || exists|i: int|
            0 <= i < ds.len() && #[trigger] ds[i] is Parse),
    decreases ds.len(),
{
    if ds.len() > 0 {
        let rest = ds.drop_first();
        match apply(m, ds.first()) {
            Ok(next) => {
                custom_parser_is_sticky(m, ds.first());
                custom_parser_records_parse(next, rest);
                if exists|i: int| 0 <= i < rest.len() && #[trigger] rest[i] is Parse {
                    let i = choose|i: int| 0 <= i < rest.len() && #[trigger] rest[i] is Parse;
                    assert(ds[i + 1] is Parse);
                }
                if exists|i: int| 0 <= i < ds.len() && #[trigger] ds[i] is Parse {
                    let i = choose|i: int| 0 <= i < ds.len() && #[trigger] ds[i] is Parse;
                    if i > 0 {
                        assert(rest[i - 1] is Parse);
                    }
                }
            },
            Err(_) => {},
        }
    }
}

/// A struct-level model that passes its check is a plain argument without
/// a custom parser.
pub proof fn struct_models_are_plain(m: AttrsView)
    ensures
        validated_struct(m) matches Ok(checked) ==> checked == m && m.kind is Arg
            && !m.has_custom_parser,
{
}

/// The resolution of a struct never yields a subcommand or a flattened
/// model.
pub proof fn struct_outcome_is_plain(
    docs: Seq<Seq<char>>,
    ds: Seq<DirectiveView>,
    name: Seq<char>,
    casing: CasingStyle,
    version: Option<Seq<char>>,
    author: Option<Seq<char>>,
)
    ensures
        struct_outcome(docs, ds, name, casing, version, author) matches Ok(m) ==> m.kind is Arg
            && !m.has_custom_parser,
{
}

/// Whether a directive withdraws methods.
pub open spec fn is_cancellation(d: DirectiveView) -> bool {
    d matches DirectiveView::NameLitStr(name, lit) && cancels(name, lit)
}

/// Whether `front` is the beginning of `whole`.
pub open spec fn starts_with(whole: Seq<MethodView>, front: Seq<MethodView>) -> bool {
    front.len() <= whole.len() && whole.take(front.len() as int) == front
}

/// A directive that is no cancellation and is accepted leaves the methods
/// as they are or appends one.
pub proof fn directives_append(m: AttrsView, d: DirectiveView)
    requires
        !is_cancellation(d),
    ensures
        apply(m, d) matches Ok(next) ==> next.methods == m.methods || (next.methods.len()
            == m.methods.len() + 1 && next.methods.drop_last() == m.methods),
{
    reveal_strlit("short");
    reveal_strlit("long");
    reveal_strlit("about");
    reveal_strlit("version");
    reveal_strlit("author");
    assert("short"@.len() == 5 && "long"@.len() == 4 && "about"@.len() == 5 && "version"@.len()
        == 7 && "author"@.len() == 6);
    assert("short"@[0] == 's' && "about"@[0] == 'a');
    match apply(m, d) {
        Ok(next) => {
            if next.methods != m.methods {
                assert(next.methods.drop_last() =~= m.methods);
            }
        },
        Err(_) => {},
    }
}

/// The order of the methods: in a run without cancellation the methods
/// that were there stay in front, in their order, and what the directives
/// add comes after them. So the defaults of the build metadata come first,
/// then the help drawn from documentation, then the methods of the
/// directives as they were written.
pub proof fn methods_only_grow(m: AttrsView, ds: Seq<DirectiveView>)
    requires
        forall|i: int| 0 <= i < ds.len() ==> !is_cancellation(#[trigger] ds[i]),
    ensures
        starts_with(apply_all(m, ds).model.methods, m.methods),
    decreases ds.len(),
{
    if ds.len() == 0 {
        assert(m.methods.take(m.methods.len() as int) =~= m.methods);
    } else {
        match apply(m, ds.first()) {
            Ok(next) => {
                directives_append(m, ds.first());
                assert forall|i: int| 0 <= i < ds.drop_first().len() implies !is_cancellation(
                    #[trigger] ds.drop_first()[i],
                ) by {
                    assert(ds.drop_first()[i] == ds[i + 1]);
                }
                methods_only_grow(next, ds.drop_first());
                let last = apply_all(m, ds).model.methods;
                assert(last.take(next.methods.len() as int) == next.methods);
                assert(last.take(m.methods.len() as int) =~= m.methods) by {
                    assert(next.methods.take(m.methods.len() as int) =~= m.methods);
                    assert(last.take(next.methods.len() as int).take(m.methods.len() as int)
                        =~= last.take(m.methods.len() as int));
                }
            },
            Err(_) => {
                assert(m.methods.take(m.methods.len() as int) =~= m.methods);
            },
        }
    }
}

/// Filtering by a name leaves no method of that name.
pub proof fn without_leaves_none(methods: Seq<MethodView>, name: Seq<char>)
    ensures
        !has_method(without(methods, name), name),
    decreases methods.len(),
{
    if methods.len() > 0 {
        without_leaves_none(methods.drop_last(), name);
        let rest = without(methods.drop_last(), name);
        assert forall|i: int| 0 <= i < without(methods, name).len() implies (#[trigger] without(
            methods,
            name,
        )[i]).name != name by {
            if i < rest.len() {
                assert(rest[i].name != name);
            }
        }
    }
}

/// Filtering by a name keeps every method of another name.
pub proof fn without_keeps_others(methods: Seq<MethodView>, name: Seq<char>, other: Seq<char>)
    requires
        other != name,
    ensures
        has_method(without(methods, name), other) == has_method(methods, other),
    decreases methods.len(),
{
    if methods.len() > 0 {
        let init = methods.drop_last();
        let rest = without(init, name);
        without_keeps_others(init, name, other);
        if has_method(methods, other) {
            let i = choose|i: int| 0 <= i < methods.len() && (#[trigger] methods[i]).name == other;
            if i < methods.len() - 1 {
                assert(init[i].name == other);
                let k = choose|k: int| 0 <= k < rest.len() && (#[trigger] rest[k]).name == other;
                assert(without(methods, name)[k].name == other);
            } else {
                assert(without(methods, name)[rest.len() as int].name == other);
            }
        }
        if has_method(without(methods, name), other) {
            let k = choose|k: int|
                0 <= k < without(methods, name).len() && (#[trigger] without(methods, name)[k]).name
                    == other;
            if k < rest.len() {
                assert(rest[k].name == other);
                let i = choose|i: int| 0 <= i < init.len() && (#[trigger] init[i]).name == other;
                assert(methods[i].name == other);
            } else {
                assert(methods[methods.len() - 1].name == other);
            }
        }
    }
}

/// Directive cancellation: the empty string given to `about`, `version` or
/// `author` is accepted on every model and leaves no method of that name,
/// whether the method came from the build metadata, from documentation or
/// from an earlier directive. Nothing else of the model changes.
pub proof fn empty_literal_cancels(m: AttrsView, name: Seq<char>)
    requires
        name == "about"@ || name == "version"@ || name == "author"@,
    ensures
        apply(m, DirectiveView::NameLitStr(name, Seq::empty())) == Ok::<AttrsView, ConfigError>(
            AttrsView { methods: without(m.methods, name), ..m },
        ),
        !has_method(without(m.methods, name), name),
{
    without_leaves_none(m.methods, name);
}

/// A struct whose only directive is `version = ""` has no `version` method,
/// whatever version the build metadata gave.
pub proof fn injected_version_is_cancelled(
    name: Seq<char>,
    casing: CasingStyle,
    version: Option<Seq<char>>,
    author: Option<Seq<char>>,
)
    ensures
        struct_outcome(
            Seq::empty(),
            seq![DirectiveView::NameLitStr("version"@, Seq::empty())],
            name,
            casing,
            version,
            author,
        ) matches Ok(m) && !has_method(m.methods, "version"@),
{
    let ds = seq![DirectiveView::NameLitStr("version"@, Seq::<char>::empty())];
    let seeded = with_docs(struct_seed(name, casing, version, author), Seq::empty(), "about"@);
    empty_literal_cancels(seeded, "version"@);
    assert(ds.drop_first().len() == 0);
    reveal_with_fuel(apply_all, 2);
}

/// A plain argument of boolean shape with a `default_value` method is
/// rejected, unless a custom parser has taken the shape out of play.
pub proof fn bool_with_default_value_is_fatal(m: AttrsView)
    requires
        m.kind is Arg,
        !m.has_custom_parser,
        has_method(m.methods, "default_value"@),
    ensures
        validated_field(m, Ty::Bool) == Err::<AttrsView, ConfigError>(
            ConfigError::IllegalDirectiveForShape(ShapeRule::DefaultValueOnBool),
        ),
{
}

/// A field of boolean shape with a `default_value` method is rejected
/// whatever its kind, unless it is a plain argument with a custom parser.
pub proof fn bool_with_default_value_never_passes(m: AttrsView)
    requires
        has_method(m.methods, "default_value"@),
        !(m.kind is Arg && m.has_custom_parser),
    ensures
        validated_field(m, Ty::Bool) is Err,
{
    let i = choose|i: int|
        0 <= i < m.methods.len() && (#[trigger] m.methods[i]).name == "default_value"@;
    reveal_strlit("default_value");
    reveal_strlit("help");
    reveal_strlit("long_help");
    assert("default_value"@.len() == 13 && "help"@.len() == 4 && "long_help"@.len() == 9);
    assert(!only_doc_methods(m.methods)) by {
        assert(m.methods[i].name != "help"@ && m.methods[i].name != "long_help"@);
    }
}

/// A plain argument whose type is an optional optional, with neither
/// `short` nor `long` and without a custom parser, is rejected as
/// positional; so is a subcommand of that type, for one reason or another.
pub proof fn positional_option_option_is_fatal(m: AttrsView)
    requires
        !has_method(m.methods, "short"@),
        !has_method(m.methods, "long"@),
        m.kind is Subcommand || (m.kind is Arg && !m.has_custom_parser),
    ensures
        validated_field(m, Ty::OptionOption) is Err,
        m.kind is Arg ==> validated_field(m, Ty::OptionOption) == Err::<AttrsView, ConfigError>(
            ConfigError::IllegalDirectiveForShape(ShapeRule::PositionalOptionOption),
        ),
{
}

/// A plain argument whose type is an optional optional and which has a
/// `short` or a `long` method passes the check: it keeps that shape, or
/// takes the shape `Other` where it has a custom parser.
pub proof fn flagged_option_option_is_valid(m: AttrsView)
    requires
        m.kind is Arg,
        has_method(m.methods, "short"@) || has_method(m.methods, "long"@),
    ensures
        validated_field(m, Ty::OptionOption) == Ok::<AttrsView, ConfigError>(
            AttrsView {
                kind: Kind::Arg(
                    if m.has_custom_parser {
                        Ty::Other
                    } else {
                        Ty::OptionOption
                    },
                ),
                ..m
            },
        ),
{
}

/// End to end: a field of boolean type whose only directive is
/// `default_value = "..."` is rejected; a field whose type is an optional
/// optional is rejected without directives and accepted with `short`.
pub proof fn field_legality(name: Seq<char>, casing: CasingStyle, value: Seq<char>)
    ensures
        field_outcome(
            Seq::empty(),
            seq![DirectiveView::NameLitStr("default_value"@, value)],
            name,
            casing,
            Ty::Bool,
        ) == Err::<AttrsView, ConfigError>(
            ConfigError::IllegalDirectiveForShape(ShapeRule::DefaultValueOnBool),
        ),
        field_outcome(Seq::empty(), Seq::empty(), name, casing, Ty::OptionOption) == Err::<
            AttrsView,
            ConfigError,
        >(ConfigError::IllegalDirectiveForShape(ShapeRule::PositionalOptionOption)),
        field_outcome(Seq::empty(), seq![DirectiveView::Short], name, casing, Ty::OptionOption)
            matches Ok(m) && m.kind == Kind::Arg(Ty::OptionOption),
{
    let fresh = with_docs(new_model(name, casing), Seq::empty(), "help"@);
    assert(fresh.methods =~= Seq::<MethodView>::empty());
    reveal_with_fuel(apply_all, 2);
    reveal_strlit("default_value");
    reveal_strlit("short");
    reveal_strlit("about");
    reveal_strlit("version");
    reveal_strlit("author");
    reveal_strlit("name");
    assert("default_value"@.len() == 13 && "short"@.len() == 5 && "about"@[0] == 'a'
        && "short"@[0] == 's' && "version"@.len() == 7 && "author"@.len() == 6 && "name"@.len()
        == 4);
    let with_default = with_str_method(fresh, "default_value"@, value);
    assert(with_default.methods[0].name == "default_value"@);
    let with_short = with_str_method(fresh, "short"@, fresh.cased_name);
    assert(with_short.methods[0].name == "short"@);
    assert(seq![DirectiveView::NameLitStr("default_value"@, value)].drop_first().len() == 0);
    assert(seq![DirectiveView::Short].drop_first().len() == 0);
}

} // verus!
