//! The shapes of field types, inferred from a structural description of the
//! declared type.

use crate::text::same_text;
use vstd::prelude::*;

verus! {

/// The shape of a field's declared type.
#[derive(Copy, Clone, PartialEq, Eq, Debug, Structural)]
pub enum Ty {
    Bool,
    Vec,
    Option,
    OptionOption,
    OptionVec,
    Other,
}

/// One generic argument of a path type.
#[derive(Debug)]
pub enum GenericArg {
    /// A type argument.
    Type(TypeDesc),
    /// A lifetime, a binding, a constraint or a constant.
    Other,
}

/// What the classification reads of a declared type.
#[derive(Debug)]
pub enum TypeDesc {
    /// A path type: the identifier of its last segment and the arguments
    /// that this segment has in angle brackets, none if it has no such list.
    Path { name: String, args: Vec<GenericArg> },
    /// Any other form of type: a reference, a tuple, a function type.
    Other,
}

/// The shape that the outermost constructor of `ty` gives by itself.
pub open spec fn head_shape(ty: TypeDesc) -> Ty {
    match ty {
        TypeDesc::Path { name, args } => {
            if name@ == "bool"@ {
                Ty::Bool
            } else if name@ == "Option"@ {
                Ty::Option
            } else if name@ == "Vec"@ {
                Ty::Vec
            } else {
                Ty::Other
            }
        },
        TypeDesc::Other => Ty::Other,
    }
}

/// The type argument of `ty`, where it is a path with exactly one generic
/// argument and that argument is a type.
pub open spec fn sub_type_of(ty: TypeDesc) -> Option<TypeDesc> {
    match ty {
        TypeDesc::Path { name, args } => {
            if args@.len() == 1 {
                match args@[0] {
                    GenericArg::Type(inner) => Some(inner),
                    GenericArg::Other => None,
                }
            } else {
                None
            }
        },
        TypeDesc::Other => None,
    }
}

/// The shape of `ty`: that of its outermost constructor, refined for an
/// optional by the outermost constructor of the type it wraps. Nothing
/// below that second level is looked at.
pub open spec fn shape_of(ty: TypeDesc) -> Ty {
    match head_shape(ty) {
        Ty::Option => match sub_type_of(ty) {
            Some(inner) => match head_shape(inner) {
                Ty::Option => Ty::OptionOption,
                Ty::Vec => Ty::OptionVec,
                _ => Ty::Option,
            },
            None => Ty::Option,
        },
        shape => shape,
    }
}

/// The shape that the outermost constructor of `ty` gives by itself.
pub fn head(ty: &TypeDesc) -> (res: Ty)
    ensures
        res == head_shape(*ty),
{
    match ty {
        TypeDesc::Path { name, args } => {
            if same_text(name.as_str(), "bool") {
                Ty::Bool
            } else if same_text(name.as_str(), "Option") {
                Ty::Option
            } else if same_text(name.as_str(), "Vec") {
                Ty::Vec
            } else {
                Ty::Other
            }
        },
        TypeDesc::Other => Ty::Other,
    }
}

/// The single type argument of a path type, if it has exactly one generic
/// argument and that argument is a type.
pub fn sub_type(ty: &TypeDesc) -> (res: Option<&TypeDesc>)
    ensures
        match res {
            Some(inner) => sub_type_of(*ty) == Some(*inner),
            None => sub_type_of(*ty) is None,
        },
{
    match ty {
        TypeDesc::Path { name, args } => {
            if args.len() == 1 {
                match &args[0] {
                    GenericArg::Type(inner) => Some(inner),
                    GenericArg::Other => None,
                }
            } else {
                None
            }
        },
        TypeDesc::Other => None,
    }
}

} // verus!
