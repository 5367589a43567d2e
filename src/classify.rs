use vstd::prelude::*;
use crate::schema::{GenericArg, PathArgs, TypeExpr};

verus! {

// Containers are recognised by the name of the last path segment alone, as the
// type is written: `Option<T>`, `std::option::Option<T>` and a user type that
// happens to be called `Option` all count. A segment with that name but without
// exactly one angle-bracketed argument that is a type (`Option`, `Vec<'a>`,
// `Vec<A, B>`) is no container.

/// The type argument of `ty` when the last segment of its path is `name` and
/// it has exactly one argument, a type.
pub open spec fn container_inner(ty: TypeExpr, name: Seq<char>) -> Option<TypeExpr> {
    match ty.path {
        Some(segs) => {
            if segs@.len() > 0 && segs@.last().ident@ == name {
                match segs@.last().args {
                    PathArgs::AngleBracketed(args) => {
                        if args@.len() == 1 {
                            match args@[0] {
                                GenericArg::Type(inner) => Some(inner),
                                GenericArg::Other => None,
                            }
                        } else {
                            None
                        }
                    },
                    _ => None,
                }
            } else {
                None
            }
        },
        None => None,
    }
}

/// The element type of an optional-value type `Option<T>`.
pub open spec fn option_inner(ty: TypeExpr) -> Option<TypeExpr> {
    container_inner(ty, "Option"@)
}

/// The element type of an ordered-sequence type `Vec<T>`.
pub open spec fn vec_inner(ty: TypeExpr) -> Option<TypeExpr> {
    container_inner(ty, "Vec"@)
}

/// The type argument of `ty` when the last segment of its path is `name` and
/// it has exactly one argument, a type.
pub fn get_container_type_inner<'a>(ty: &'a TypeExpr, name: &str) -> (r: Option<&'a TypeExpr>)
    ensures
        match r {
            Some(t) => container_inner(*ty, name@) == Some(*t),
            None => container_inner(*ty, name@) is None,
        },
{
    match &ty.path {
        Some(segs) => {
            if segs.len() == 0 {
                return None;
            }
            let last = &segs[segs.len() - 1];
            let wanted = String::from_str(name);
            if last.ident != wanted {
                return None;
            }
            match &last.args {
                PathArgs::AngleBracketed(args) => {
                    if args.len() != 1 {
                        return None;
                    }
                    match &args[0] {
                        GenericArg::Type(inner) => Some(inner),
                        GenericArg::Other => None,
                    }
                },
                _ => None,
            }
        },
        None => None,
    }
}

/// The element type of `ty` if it is `Option<T>`.
pub fn get_option_type_inner(ty: &TypeExpr) -> (r: Option<&TypeExpr>)
    ensures
        match r {
            Some(t) => option_inner(*ty) == Some(*t),
            None => option_inner(*ty) is None,
        },
{
    get_container_type_inner(ty, "Option")
}

/// The element type of `ty` if it is `Vec<T>`.
pub fn get_vec_type_inner(ty: &TypeExpr) -> (r: Option<&TypeExpr>)
    ensures
        match r {
            Some(t) => vec_inner(*ty) == Some(*t),
            None => vec_inner(*ty) is None,
        },
{
    get_container_type_inner(ty, "Vec")
}

/// Whether `ty` is `Option<T>` for some `T`.
pub fn is_option_type(ty: &TypeExpr) -> (r: bool)
    ensures
        r == option_inner(*ty) is Some,
{
    get_option_type_inner(ty).is_some()
}

/// `ty` with one `Option` layer removed, or `ty` itself.
pub fn unwrap_optional(ty: &TypeExpr) -> (r: &TypeExpr)
    ensures
        *r == match option_inner(*ty) {
            Some(t) => t,
            None => *ty,
        },
{
    match get_option_type_inner(ty) {
        Some(t) => t,
        None => ty,
    }
}

} // verus!
