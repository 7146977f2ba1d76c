//! Telling optional fields from required ones by the written form of a type.
//!
//! The match is on syntax alone: the first segment of a path must be the
//! identifier `Option` and carry exactly one type between angle brackets.
//! An alias of the wrapper, or the wrapper reached through a longer path
//! such as `std::option::Option<T>`, is not seen as optional.

use vstd::prelude::*;
use crate::syntax::{
    applied_type, GenericArgument, GenericArgumentView, PathArguments, PathArgumentsView,
    PathSegmentView, TypeExpr, TypeView,
};

verus! {

/// How a field takes part in finalization, with the type its setter accepts.
#[derive(Debug, PartialEq, Eq)]
pub enum Classification {
    /// The field must be set; the type is the declared type as a whole.
    Required(TypeExpr),
    /// The field may stay unset; the type is the argument of the wrapper.
    Optional(TypeExpr),
}

/// The mathematical value of a [`Classification`].
pub enum ClassificationView {
    Required(TypeView),
    Optional(TypeView),
}

impl View for Classification {
    type V = ClassificationView;

    open spec fn view(&self) -> ClassificationView {
        match self {
            Classification::Required(t) => ClassificationView::Required(t@),
            Classification::Optional(t) => ClassificationView::Optional(t@),
        }
    }
}

impl ClassificationView {
    /// The type of the values that the field's setter takes.
    pub open spec fn effective(self) -> TypeView {
        match self {
            ClassificationView::Required(t) => t,
            ClassificationView::Optional(t) => t,
        }
    }

    /// Whether finalization fails where the field was not set.
    pub open spec fn is_required(self) -> bool {
        self is Required
    }
}

/// The identifier by which the optional wrapper is recognized.
pub open spec fn wrapper_name() -> Seq<char> {
    "Option"@
}

/// Whether `ty` is written as the optional wrapper around a single type.
pub open spec fn is_wrapped(ty: TypeView) -> bool {
    &&& ty is Path
    &&& ty->Path_0.segments.len() > 0
    &&& ty->Path_0.segments[0].ident == wrapper_name()
    &&& ty->Path_0.segments[0].arguments is AngleBracketed
    &&& ty->Path_0.segments[0].arguments->AngleBracketed_0.len() == 1
    &&& ty->Path_0.segments[0].arguments->AngleBracketed_0[0] is Type
}

/// The single argument of a type for which [`is_wrapped`] holds.
pub open spec fn wrapped_type(ty: TypeView) -> TypeView
    recommends
        is_wrapped(ty),
{
    ty->Path_0.segments[0].arguments->AngleBracketed_0[0]->Type_0
}

/// The classification of a field whose declared type is `ty`.
pub open spec fn classify_spec(ty: TypeView) -> ClassificationView {
    if is_wrapped(ty) {
        ClassificationView::Optional(wrapped_type(ty))
    } else {
        ClassificationView::Required(ty)
    }
}

/// The argument of the optional wrapper, where `ty` is written as one.
pub fn unwrap_option(ty: &TypeExpr) -> (r: Option<&TypeExpr>)
    ensures
        r is Some <==> is_wrapped(ty@),
        r is Some ==> r->Some_0@ == wrapped_type(ty@),
{
    let path = match ty {
        TypeExpr::Path(path) => path,
        TypeExpr::Other(_) => { return None; },
    };
    if path.segments.len() == 0 {
        return None;
    }
    let first = &path.segments[0];
    let wrapper = "Option".to_owned();
    if !(first.ident == wrapper) {
        return None;
    }
    let args = match &first.arguments {
        PathArguments::AngleBracketed(args) => args,
        _ => { return None; },
    };
    if args.len() != 1 {
        assert(first.arguments@->AngleBracketed_0.len() == args.len());
        return None;
    }
    match &args[0] {
        GenericArgument::Type(inner) => Some(inner),
        GenericArgument::Other(_) => None,
    }
}

/// Classifies a field by its declared type.
pub fn classify(ty: &TypeExpr) -> (c: Classification)
    ensures
        c@ == classify_spec(ty@),
{
    match unwrap_option(ty) {
        Some(inner) => Classification::Optional(inner.clone()),
        None => Classification::Required(ty.clone()),
    }
}

impl Classification {
    /// The type of the values that the field's setter takes.
    pub fn effective(&self) -> (t: &TypeExpr)
        ensures
            t@ == self@.effective(),
    {
        match self {
            Classification::Required(t) => t,
            Classification::Optional(t) => t,
        }
    }

    /// Whether finalization fails where the field was not set.
    pub fn is_required(&self) -> (b: bool)
        ensures
            b == self@.is_required(),
    {
        match self {
            Classification::Required(_) => true,
            Classification::Optional(_) => false,
        }
    }
}

impl Clone for Classification {
    fn clone(&self) -> (r: Self)
        ensures
            r@ == self@,
    {
        match self {
            Classification::Required(t) => Classification::Required(t.clone()),
            Classification::Optional(t) => Classification::Optional(t.clone()),
        }
    }
}

/// A path whose first segment is the wrapper's identifier with exactly one
/// type between angle brackets is optional, and its effective type is that
/// argument, whatever the argument is and whatever follows the first segment.
pub proof fn law_wrapper_of_one_type_is_optional(ty: TypeView, inner: TypeView)
    requires
        ty is Path,
        ty->Path_0.segments.len() > 0,
        ty->Path_0.segments[0] == (PathSegmentView {
            ident: wrapper_name(),
            arguments: PathArgumentsView::AngleBracketed(seq![GenericArgumentView::Type(inner)]),
        }),
    ensures
        classify_spec(ty) == ClassificationView::Optional(inner),
{
}

/// A type that is no path, a path whose first identifier is not the
/// wrapper's, and a wrapper written with no argument list, with round
/// brackets, or with a number of arguments other than one are all required,
/// with the declared type unchanged as the effective type.
pub proof fn law_other_shapes_are_required(ty: TypeView)
    requires
        ({
            ||| !(ty is Path)
            ||| ty->Path_0.segments.len() == 0
            ||| ty->Path_0.segments[0].ident != wrapper_name()
            ||| !(ty->Path_0.segments[0].arguments is AngleBracketed)
            ||| ty->Path_0.segments[0].arguments->AngleBracketed_0.len() != 1
            ||| !(ty->Path_0.segments[0].arguments->AngleBracketed_0[0] is Type)
        }),
    ensures
        classify_spec(ty) == ClassificationView::Required(ty),
{
}

/// The type written as the bare wrapper applied to `inner`.
pub open spec fn wrap(inner: TypeView) -> TypeView {
    applied_type(
        wrapper_name(),
        PathArgumentsView::AngleBracketed(seq![GenericArgumentView::Type(inner)]),
    )
}

/// Classification does not look into the argument: a wrapper around a
/// wrapper is optional with the inner wrapper, itself optional, as its type.
pub proof fn law_no_recursive_unwrapping(inner: TypeView)
    ensures
        classify_spec(wrap(wrap(inner))) == ClassificationView::Optional(wrap(inner)),
        classify_spec(wrap(inner)) == ClassificationView::Optional(inner),
{
}

} // verus!
