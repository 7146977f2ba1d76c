use builder::classify::{classify, unwrap_option, Classification};
use builder::emit::wrap_in_option;
use builder::syntax::{GenericArgument, PathArguments, PathSegment, QSelf, TypeExpr, TypePath};

fn angle(args: Vec<GenericArgument>) -> PathArguments {
    PathArguments::AngleBracketed(args)
}

fn ty(arg: TypeExpr) -> GenericArgument {
    GenericArgument::Type(arg)
}

fn option_of(inner: TypeExpr) -> TypeExpr {
    TypeExpr::applied("Option", angle(vec![ty(inner)]))
}

fn segment(ident: &str, arguments: PathArguments) -> PathSegment {
    PathSegment { ident: ident.to_string(), arguments }
}

fn path(segments: Vec<PathSegment>) -> TypeExpr {
    TypeExpr::Path(TypePath { qself: None, global: false, segments })
}

#[test]
fn named_type_is_a_single_bare_segment() {
    assert_eq!(
        TypeExpr::named("String"),
        path(vec![segment("String", PathArguments::Absent)])
    );
}

#[test]
fn applied_type_keeps_its_arguments() {
    assert_eq!(
        TypeExpr::applied("Vec", angle(vec![ty(TypeExpr::named("u8"))])),
        path(vec![segment("Vec", angle(vec![ty(TypeExpr::named("u8"))]))])
    );
}

#[test]
fn clone_of_a_type_is_equal_to_it() {
    let written = TypeExpr::Path(TypePath {
        qself: Some(QSelf { ty: "Vec < u8 >".to_string(), position: 1 }),
        global: true,
        segments: vec![
            segment("IntoIterator", PathArguments::Absent),
            segment("Item", angle(vec![GenericArgument::Other("'a".to_string()), ty(TypeExpr::Other("& str".to_string()))])),
            segment("Fn", PathArguments::Parenthesized("(u8) -> u8".to_string())),
        ],
    });
    assert_eq!(written.clone(), written);
}

#[test]
fn wrapper_of_one_type_is_optional() {
    let declared = option_of(TypeExpr::named("String"));
    assert_eq!(classify(&declared), Classification::Optional(TypeExpr::named("String")));
}

#[test]
fn plain_type_is_required() {
    let declared = TypeExpr::named("String");
    assert_eq!(classify(&declared), Classification::Required(TypeExpr::named("String")));
}

#[test]
fn different_outer_identifier_is_required() {
    let declared = TypeExpr::applied("Vec", angle(vec![ty(TypeExpr::named("String"))]));
    assert_eq!(classify(&declared), Classification::Required(declared.clone()));
}

#[test]
fn wrapper_name_is_case_sensitive() {
    let declared = TypeExpr::applied("option", angle(vec![ty(TypeExpr::named("String"))]));
    assert_eq!(classify(&declared), Classification::Required(declared.clone()));
    let declared = TypeExpr::applied("OPTION", angle(vec![ty(TypeExpr::named("String"))]));
    assert_eq!(classify(&declared), Classification::Required(declared.clone()));
}

#[test]
fn wrapper_without_arguments_is_required() {
    let declared = TypeExpr::named("Option");
    assert_eq!(classify(&declared), Classification::Required(declared.clone()));
}

#[test]
fn wrapper_with_empty_brackets_is_required() {
    let declared = TypeExpr::applied("Option", angle(vec![]));
    assert_eq!(classify(&declared), Classification::Required(declared.clone()));
}

#[test]
fn wrapper_with_two_arguments_is_required() {
    let declared = TypeExpr::applied(
        "Option",
        angle(vec![ty(TypeExpr::named("A")), ty(TypeExpr::named("B"))]),
    );
    assert_eq!(classify(&declared), Classification::Required(declared.clone()));
}

#[test]
fn wrapper_of_a_lifetime_is_required() {
    let declared = TypeExpr::applied("Option", angle(vec![GenericArgument::Other("'a".to_string())]));
    assert_eq!(classify(&declared), Classification::Required(declared.clone()));
}

#[test]
fn wrapper_with_round_brackets_is_required() {
    let declared = TypeExpr::applied("Option", PathArguments::Parenthesized("(String)".to_string()));
    assert_eq!(classify(&declared), Classification::Required(declared.clone()));
}

#[test]
fn fully_qualified_wrapper_is_required() {
    let declared = wrap_in_option(TypeExpr::named("String"));
    assert_eq!(
        declared,
        path(vec![
            segment("std", PathArguments::Absent),
            segment("option", PathArguments::Absent),
            segment("Option", angle(vec![ty(TypeExpr::named("String"))])),
        ])
    );
    assert_eq!(classify(&declared), Classification::Required(declared.clone()));
}

#[test]
fn type_that_is_no_path_is_required() {
    let declared = TypeExpr::Other("& 'static str".to_string());
    assert_eq!(classify(&declared), Classification::Required(declared.clone()));
}

#[test]
fn path_without_segments_is_required() {
    let declared = path(vec![]);
    assert_eq!(classify(&declared), Classification::Required(declared.clone()));
}

#[test]
fn nested_wrapper_is_unwrapped_once() {
    let inner = option_of(TypeExpr::named("u32"));
    let declared = option_of(inner.clone());
    assert_eq!(classify(&declared), Classification::Optional(inner.clone()));
    assert_eq!(classify(&inner), Classification::Optional(TypeExpr::named("u32")));
}

#[test]
fn only_the_first_segment_is_looked_at() {
    let declared = path(vec![
        segment("Option", angle(vec![ty(TypeExpr::named("T"))])),
        segment("Item", PathArguments::Absent),
    ]);
    assert_eq!(classify(&declared), Classification::Optional(TypeExpr::named("T")));
}

#[test]
fn unwrap_option_gives_the_argument_or_nothing() {
    let declared = option_of(TypeExpr::named("String"));
    assert_eq!(unwrap_option(&declared), Some(&TypeExpr::named("String")));
    assert_eq!(unwrap_option(&TypeExpr::named("String")), None);
}

#[test]
fn effective_type_and_requiredness() {
    let required = classify(&TypeExpr::named("u8"));
    assert!(required.is_required());
    assert_eq!(required.effective(), &TypeExpr::named("u8"));
    let optional = classify(&option_of(TypeExpr::named("u8")));
    assert!(!optional.is_required());
    assert_eq!(optional.effective(), &TypeExpr::named("u8"));
    assert_eq!(optional.clone(), optional);
}
