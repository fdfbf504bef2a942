use arg_attrs::shape::{head, sub_type};
use arg_attrs::{Attrs, GenericArg, Ty, TypeDesc};

fn plain(name: &str) -> TypeDesc {
    TypeDesc::Path { name: name.to_string(), args: vec![] }
}

fn generic(name: &str, inner: TypeDesc) -> TypeDesc {
    TypeDesc::Path { name: name.to_string(), args: vec![GenericArg::Type(inner)] }
}

#[test]
fn bool_is_bool() {
    assert_eq!(Attrs::ty_from_field(&plain("bool")), Ty::Bool);
}

#[test]
fn vec_is_a_sequence() {
    assert_eq!(Attrs::ty_from_field(&generic("Vec", plain("i32"))), Ty::Vec);
}

#[test]
fn option_is_optional() {
    assert_eq!(Attrs::ty_from_field(&generic("Option", plain("i32"))), Ty::Option);
}

#[test]
fn option_of_option() {
    let ty = generic("Option", generic("Option", plain("i32")));
    assert_eq!(Attrs::ty_from_field(&ty), Ty::OptionOption);
}

#[test]
fn option_of_vec() {
    let ty = generic("Option", generic("Vec", plain("i32")));
    assert_eq!(Attrs::ty_from_field(&ty), Ty::OptionVec);
}

#[test]
fn string_is_other() {
    assert_eq!(Attrs::ty_from_field(&plain("String")), Ty::Other);
    assert_eq!(Attrs::ty_from_field(&plain("i32")), Ty::Other);
}

#[test]
fn non_path_types_are_other() {
    assert_eq!(Attrs::ty_from_field(&TypeDesc::Other), Ty::Other);
    assert_eq!(Attrs::ty_from_field(&generic("Option", TypeDesc::Other)), Ty::Option);
}

#[test]
fn vec_of_option_is_a_sequence() {
    let ty = generic("Vec", generic("Option", plain("i32")));
    assert_eq!(Attrs::ty_from_field(&ty), Ty::Vec);
}

#[test]
fn option_of_bool_is_optional() {
    assert_eq!(Attrs::ty_from_field(&generic("Option", plain("bool"))), Ty::Option);
}

#[test]
fn only_two_levels_are_read() {
    let three = generic("Option", generic("Option", generic("Option", plain("i32"))));
    assert_eq!(Attrs::ty_from_field(&three), Ty::OptionOption);
    let deep = generic("Option", generic("Vec", generic("Option", plain("i32"))));
    assert_eq!(Attrs::ty_from_field(&deep), Ty::OptionVec);
}

#[test]
fn option_without_a_single_type_argument() {
    assert_eq!(Attrs::ty_from_field(&plain("Option")), Ty::Option);
    let lifetime = TypeDesc::Path { name: "Option".to_string(), args: vec![GenericArg::Other] };
    assert_eq!(Attrs::ty_from_field(&lifetime), Ty::Option);
    let two = TypeDesc::Path {
        name: "Option".to_string(),
        args: vec![
            GenericArg::Type(generic("Option", plain("i32"))),
            GenericArg::Type(plain("i32")),
        ],
    };
    assert_eq!(Attrs::ty_from_field(&two), Ty::Option);
}

#[test]
fn names_are_matched_exactly() {
    assert_eq!(Attrs::ty_from_field(&plain("Bool")), Ty::Other);
    assert_eq!(Attrs::ty_from_field(&generic("option", plain("i32"))), Ty::Other);
    assert_eq!(Attrs::ty_from_field(&generic("VecDeque", plain("i32"))), Ty::Other);
}

#[test]
fn head_reads_the_outermost_constructor() {
    assert_eq!(head(&generic("Option", generic("Option", plain("i32")))), Ty::Option);
    assert_eq!(head(&plain("bool")), Ty::Bool);
    assert_eq!(head(&TypeDesc::Other), Ty::Other);
}

#[test]
fn sub_type_needs_exactly_one_type_argument() {
    let one = generic("Vec", plain("u8"));
    assert!(matches!(sub_type(&one), Some(TypeDesc::Path { name, .. }) if name == "u8"));
    assert!(sub_type(&plain("u8")).is_none());
    assert!(sub_type(&TypeDesc::Other).is_none());
    let lifetime = TypeDesc::Path { name: "Cow".to_string(), args: vec![GenericArg::Other] };
    assert!(sub_type(&lifetime).is_none());
}
