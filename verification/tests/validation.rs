use arg_attrs::{
    Attrs, CasingStyle, ConfigError, Directive, GenericArg, Kind, KindRule, ShapeRule, Ty, TypeDesc,
};

fn named(name: &str) -> TypeDesc {
    TypeDesc::Path { name: name.to_string(), args: vec![] }
}

fn wrapped(name: &str, inner: TypeDesc) -> TypeDesc {
    TypeDesc::Path { name: name.to_string(), args: vec![GenericArg::Type(inner)] }
}

fn value(name: &str, text: &str) -> Directive {
    Directive::NameLitStr(name.to_string(), text.to_string())
}

fn field(docs: &[&str], run: Vec<Directive>, ty: &TypeDesc) -> Result<Attrs, ConfigError> {
    let docs: Vec<String> = docs.iter().map(|l| l.to_string()).collect();
    Attrs::from_field(&docs, run, "field".to_string(), ty, CasingStyle::Kebab)
}

fn structure(docs: &[&str], run: Vec<Directive>) -> Result<Attrs, ConfigError> {
    let docs: Vec<String> = docs.iter().map(|l| l.to_string()).collect();
    Attrs::from_struct(&docs, run, "Opt".to_string(), CasingStyle::Kebab, None, None)
}

fn parse(kind: &str) -> Directive {
    Directive::Parse(kind.to_string(), None)
}

#[test]
fn bool_with_default_value_is_fatal() {
    let res = field(&[], vec![value("default_value", "true")], &named("bool"));
    assert_eq!(res.err(), Some(ConfigError::IllegalDirectiveForShape(ShapeRule::DefaultValueOnBool)));
}

#[test]
fn bool_with_required_is_fatal() {
    let res = field(&[], vec![value("required", "true")], &named("bool"));
    assert_eq!(res.err(), Some(ConfigError::IllegalDirectiveForShape(ShapeRule::RequiredOnBool)));
}

#[test]
fn default_value_is_reported_before_required() {
    let run = vec![value("required", "true"), value("default_value", "x")];
    let res = field(&[], run, &named("bool"));
    assert_eq!(res.err(), Some(ConfigError::IllegalDirectiveForShape(ShapeRule::DefaultValueOnBool)));
}

#[test]
fn option_with_default_value_is_fatal() {
    let res = field(&[], vec![value("default_value", "1")], &wrapped("Option", named("i32")));
    assert_eq!(
        res.err(),
        Some(ConfigError::IllegalDirectiveForShape(ShapeRule::DefaultValueOnOption))
    );
}

#[test]
fn option_with_required_is_fatal() {
    let res = field(&[], vec![value("required", "true")], &wrapped("Option", named("i32")));
    assert_eq!(res.err(), Some(ConfigError::IllegalDirectiveForShape(ShapeRule::RequiredOnOption)));
}

#[test]
fn positional_option_option_is_fatal() {
    let ty = wrapped("Option", wrapped("Option", named("i32")));
    let res = field(&[], vec![], &ty);
    assert_eq!(
        res.err(),
        Some(ConfigError::IllegalDirectiveForShape(ShapeRule::PositionalOptionOption))
    );
}

#[test]
fn option_option_with_short_is_valid() {
    let ty = wrapped("Option", wrapped("Option", named("i32")));
    let attrs = field(&[], vec![Directive::Short], &ty).unwrap();
    assert_eq!(attrs.kind(), Kind::Arg(Ty::OptionOption));
    let attrs = field(&[], vec![value("long", "name")], &ty).unwrap();
    assert_eq!(attrs.kind(), Kind::Arg(Ty::OptionOption));
}

#[test]
fn positional_option_vec_is_fatal() {
    let ty = wrapped("Option", wrapped("Vec", named("i32")));
    let res = field(&["Some help."], vec![], &ty);
    assert_eq!(
        res.err(),
        Some(ConfigError::IllegalDirectiveForShape(ShapeRule::PositionalOptionVec))
    );
    let attrs = field(&["Some help."], vec![Directive::Long], &ty).unwrap();
    assert_eq!(attrs.kind(), Kind::Arg(Ty::OptionVec));
}

#[test]
fn plain_fields_take_their_shape() {
    assert_eq!(field(&[], vec![], &named("bool")).unwrap().kind(), Kind::Arg(Ty::Bool));
    assert_eq!(field(&[], vec![], &named("String")).unwrap().kind(), Kind::Arg(Ty::Other));
    let list = wrapped("Vec", named("String"));
    assert_eq!(field(&[], vec![value("default_value", "x")], &list).unwrap().kind(), Kind::Arg(Ty::Vec));
    let maybe = wrapped("Option", named("String"));
    assert_eq!(field(&[], vec![], &maybe).unwrap().kind(), Kind::Arg(Ty::Option));
}

#[test]
fn a_custom_parser_sets_exotic_shapes_aside() {
    let run = vec![parse("from_str"), value("default_value", "x")];
    let attrs = field(&[], run, &named("bool")).unwrap();
    assert_eq!(attrs.kind(), Kind::Arg(Ty::Other));
    let nested = wrapped("Option", wrapped("Option", named("i32")));
    assert_eq!(field(&[], vec![parse("from_str")], &nested).unwrap().kind(), Kind::Arg(Ty::Other));
    let list = wrapped("Option", wrapped("Vec", named("i32")));
    assert_eq!(field(&[], vec![parse("from_str")], &list).unwrap().kind(), Kind::Arg(Ty::Other));
}

#[test]
fn a_custom_parser_keeps_options_and_sequences() {
    let maybe = wrapped("Option", named("i32"));
    assert_eq!(field(&[], vec![parse("from_str")], &maybe).unwrap().kind(), Kind::Arg(Ty::Option));
    let list = wrapped("Vec", named("i32"));
    assert_eq!(field(&[], vec![parse("from_str")], &list).unwrap().kind(), Kind::Arg(Ty::Vec));
    let res = field(&[], vec![parse("from_str"), value("required", "true")], &maybe);
    assert_eq!(res.err(), Some(ConfigError::IllegalDirectiveForShape(ShapeRule::RequiredOnOption)));
}

#[test]
fn flatten_takes_no_parser() {
    let res = field(&[], vec![Directive::Flatten, parse("from_str")], &named("Inner"));
    assert_eq!(res.err(), Some(ConfigError::IllegalDirectiveForKind(KindRule::ParseOnFlatten)));
}

#[test]
fn flatten_takes_no_methods() {
    let res = field(&[], vec![Directive::Flatten, Directive::Long], &named("Inner"));
    assert_eq!(res.err(), Some(ConfigError::IllegalDirectiveForKind(KindRule::MethodsOnFlatten)));
    let res = field(&[], vec![value("short", "x"), Directive::Flatten], &named("Inner"));
    assert_eq!(res.err(), Some(ConfigError::IllegalDirectiveForKind(KindRule::MethodsOnFlatten)));
}

#[test]
fn flatten_alone_is_valid() {
    let attrs = field(&[], vec![Directive::Flatten], &named("Inner")).unwrap();
    assert_eq!(attrs.kind(), Kind::FlattenStruct);
    let nested = wrapped("Option", wrapped("Option", named("Inner")));
    assert_eq!(field(&[], vec![Directive::Flatten], &nested).unwrap().kind(), Kind::FlattenStruct);
}

#[test]
fn flatten_may_be_documented() {
    let attrs = field(&["The inner options."], vec![Directive::Flatten], &named("Inner")).unwrap();
    assert_eq!(attrs.kind(), Kind::FlattenStruct);
    assert!(attrs.has_method("help"));
}

#[test]
fn subcommand_takes_no_parser() {
    let res = field(&[], vec![Directive::Subcommand, parse("from_str")], &named("Cmd"));
    assert_eq!(res.err(), Some(ConfigError::IllegalDirectiveForKind(KindRule::ParseOnSubcommand)));
}

#[test]
fn subcommand_takes_no_methods_but_help() {
    let res = field(&[], vec![Directive::Subcommand, Directive::Short], &named("Cmd"));
    assert_eq!(res.err(), Some(ConfigError::IllegalDirectiveForKind(KindRule::MethodsOnSubcommand)));
    let attrs = field(&["Runs it."], vec![Directive::Subcommand], &named("Cmd")).unwrap();
    assert_eq!(attrs.kind(), Kind::Subcommand(Ty::Other));
    let long = field(&["Runs it.", "", "At length."], vec![Directive::Subcommand], &named("Cmd"));
    assert_eq!(long.unwrap().kind(), Kind::Subcommand(Ty::Other));
}

#[test]
fn subcommand_takes_its_shape_from_the_type() {
    let maybe = wrapped("Option", named("Cmd"));
    assert_eq!(
        field(&[], vec![Directive::Subcommand], &maybe).unwrap().kind(),
        Kind::Subcommand(Ty::Option)
    );
    let list = wrapped("Vec", named("Cmd"));
    assert_eq!(
        field(&[], vec![Directive::Subcommand], &list).unwrap().kind(),
        Kind::Subcommand(Ty::Vec)
    );
}

#[test]
fn subcommand_of_nested_options_is_fatal() {
    let nested = wrapped("Option", wrapped("Option", named("Cmd")));
    let res = field(&[], vec![Directive::Subcommand], &nested);
    assert_eq!(
        res.err(),
        Some(ConfigError::IllegalDirectiveForShape(ShapeRule::OptionOptionSubcommand))
    );
    let list = wrapped("Option", wrapped("Vec", named("Cmd")));
    let res = field(&[], vec![Directive::Subcommand], &list);
    assert_eq!(res.err(), Some(ConfigError::IllegalDirectiveForShape(ShapeRule::OptionVecSubcommand)));
}

#[test]
fn double_promotion_fails_the_field() {
    let res = field(&[], vec![Directive::Subcommand, Directive::Flatten], &named("Cmd"));
    assert_eq!(res.err(), Some(ConfigError::IllegalKindTransition));
    let res = field(&[], vec![Directive::Flatten, Directive::Subcommand], &named("Cmd"));
    assert_eq!(res.err(), Some(ConfigError::IllegalKindTransition));
}

#[test]
fn structs_take_no_parser() {
    let res = structure(&[], vec![parse("from_str")]);
    assert_eq!(res.err(), Some(ConfigError::IllegalDirectiveForKind(KindRule::ParseOnStruct)));
}

#[test]
fn structs_are_no_subcommands() {
    let res = structure(&[], vec![Directive::Subcommand]);
    assert_eq!(res.err(), Some(ConfigError::IllegalDirectiveForKind(KindRule::SubcommandOnStruct)));
}

#[test]
fn structs_are_not_flattened() {
    let res = structure(&[], vec![Directive::Flatten]);
    assert_eq!(res.err(), Some(ConfigError::IllegalDirectiveForKind(KindRule::FlattenOnStruct)));
}

#[test]
fn the_parser_is_reported_before_the_kind() {
    let res = structure(&[], vec![Directive::Flatten, parse("from_str")]);
    assert_eq!(res.err(), Some(ConfigError::IllegalDirectiveForKind(KindRule::ParseOnStruct)));
}

#[test]
fn direct_validation() {
    let mut attrs = Attrs::new("x".to_string(), CasingStyle::Kebab);
    attrs.push_str_method("default_value", "1");
    assert_eq!(attrs.arg_violation(Ty::Bool), Some(ShapeRule::DefaultValueOnBool));
    assert_eq!(attrs.arg_violation(Ty::Option), Some(ShapeRule::DefaultValueOnOption));
    assert_eq!(attrs.arg_violation(Ty::OptionOption), Some(ShapeRule::PositionalOptionOption));
    assert_eq!(attrs.arg_violation(Ty::OptionVec), Some(ShapeRule::PositionalOptionVec));
    assert_eq!(attrs.arg_violation(Ty::Vec), None);
    assert_eq!(attrs.arg_violation(Ty::Other), None);
    assert!(!attrs.has_only_doc_methods());
    assert_eq!(attrs.validate_field(Ty::Vec).unwrap().kind(), Kind::Arg(Ty::Vec));
    let plain = Attrs::new("x".to_string(), CasingStyle::Kebab);
    assert!(plain.has_only_doc_methods());
    assert_eq!(plain.validate_struct().unwrap().kind(), Kind::Arg(Ty::Other));
}

#[test]
fn every_error_has_its_message() {
    let cases = [
        (ConfigError::UnknownCasingStyle, "unsupported casing"),
        (ConfigError::UnknownParserKind, "unsupported parser"),
        (ConfigError::IllegalKindTransition, "subcommands cannot be flattened"),
        (
            ConfigError::IllegalDirectiveForKind(KindRule::ParseOnStruct),
            "parse attribute is only allowed on fields",
        ),
        (
            ConfigError::IllegalDirectiveForKind(KindRule::SubcommandOnStruct),
            "subcommand is only allowed on fields",
        ),
        (
            ConfigError::IllegalDirectiveForKind(KindRule::FlattenOnStruct),
            "flatten is only allowed on fields",
        ),
        (
            ConfigError::IllegalDirectiveForKind(KindRule::ParseOnFlatten),
            "parse attribute is not allowed for flattened entry",
        ),
        (
            ConfigError::IllegalDirectiveForKind(KindRule::MethodsOnFlatten),
            "methods are not allowed for flattened entry",
        ),
        (
            ConfigError::IllegalDirectiveForKind(KindRule::ParseOnSubcommand),
            "parse attribute is not allowed for subcommand",
        ),
        (
            ConfigError::IllegalDirectiveForKind(KindRule::MethodsOnSubcommand),
            "methods in attributes are not allowed for subcommand",
        ),
        (
            ConfigError::IllegalDirectiveForShape(ShapeRule::OptionOptionSubcommand),
            "Option<Option<T>> type is not allowed for subcommand",
        ),
        (
            ConfigError::IllegalDirectiveForShape(ShapeRule::OptionVecSubcommand),
            "Option<Vec<T>> type is not allowed for subcommand",
        ),
        (
            ConfigError::IllegalDirectiveForShape(ShapeRule::DefaultValueOnBool),
            "default_value is meaningless for bool",
        ),
        (
            ConfigError::IllegalDirectiveForShape(ShapeRule::RequiredOnBool),
            "required is meaningless for bool",
        ),
        (
            ConfigError::IllegalDirectiveForShape(ShapeRule::DefaultValueOnOption),
            "default_value is meaningless for Option",
        ),
        (
            ConfigError::IllegalDirectiveForShape(ShapeRule::RequiredOnOption),
            "required is meaningless for Option",
        ),
        (
            ConfigError::IllegalDirectiveForShape(ShapeRule::PositionalOptionOption),
            "Option<Option<T>> type is meaningless for positional argument",
        ),
        (
            ConfigError::IllegalDirectiveForShape(ShapeRule::PositionalOptionVec),
            "Option<Vec<T>> type is meaningless for positional argument",
        ),
        (
            ConfigError::MissingParserFunction,
            "cannot omit parser function name with `try_from_os_str`",
        ),
        (ConfigError::InvalidParserFunctionForm, "`parse` argument must be a function path"),
    ];
    for (error, text) in cases {
        assert_eq!(error.message(), text);
    }
}
