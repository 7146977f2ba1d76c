use builder::classify::Classification;
use builder::diagnostics::diagnose;
use builder::schema::{FieldSchema, RecordSchema, ShapeError};
use builder::syntax::{DeclBody, Declaration, FieldDecl, GenericArgument, PathArguments, TypeExpr};

fn option_of(inner: TypeExpr) -> TypeExpr {
    TypeExpr::applied("Option", PathArguments::AngleBracketed(vec![GenericArgument::Type(inner)]))
}

fn field(name: &str, ty: TypeExpr) -> FieldDecl {
    FieldDecl { name: name.to_string(), ty }
}

fn declaration(name: &str, body: DeclBody) -> Declaration {
    Declaration { name: name.to_string(), body }
}

#[test]
fn record_with_named_fields_has_a_schema() {
    let decl = declaration(
        "Command",
        DeclBody::Named(vec![
            field("name", TypeExpr::named("String")),
            field("nickname", option_of(TypeExpr::named("String"))),
        ]),
    );
    let schema = RecordSchema::extract(&decl).unwrap();
    assert_eq!(schema.name(), "Command");
    assert_eq!(
        schema.fields(),
        &vec![
            FieldSchema {
                name: "name".to_string(),
                declared: TypeExpr::named("String"),
                classification: Classification::Required(TypeExpr::named("String")),
            },
            FieldSchema {
                name: "nickname".to_string(),
                declared: option_of(TypeExpr::named("String")),
                classification: Classification::Optional(TypeExpr::named("String")),
            },
        ]
    );
}

#[test]
fn fields_keep_the_order_of_the_declaration() {
    let decl = declaration(
        "Point",
        DeclBody::Named(vec![
            field("z", TypeExpr::named("i32")),
            field("a", TypeExpr::named("i32")),
            field("m", TypeExpr::named("i32")),
        ]),
    );
    let schema = RecordSchema::extract(&decl).unwrap();
    let names: Vec<&str> = schema.fields().iter().map(|f| f.name.as_str()).collect();
    assert_eq!(names, vec!["z", "a", "m"]);
}

#[test]
fn sum_type_has_no_schema() {
    let decl = declaration("Shape", DeclBody::Enum);
    assert_eq!(RecordSchema::extract(&decl), Err(ShapeError::NotARecord));
}

#[test]
fn union_has_no_schema() {
    let decl = declaration("Bits", DeclBody::Union);
    assert_eq!(RecordSchema::extract(&decl), Err(ShapeError::NotARecord));
}

#[test]
fn positional_record_has_no_schema() {
    let decl = declaration("Pair", DeclBody::Tuple);
    assert_eq!(RecordSchema::extract(&decl), Err(ShapeError::PositionalFields));
}

#[test]
fn record_without_body_has_no_schema() {
    let decl = declaration("Marker", DeclBody::Unit);
    assert_eq!(RecordSchema::extract(&decl), Err(ShapeError::NoFields));
}

#[test]
fn record_with_empty_braces_has_no_schema() {
    let decl = declaration("Empty", DeclBody::Named(vec![]));
    assert_eq!(RecordSchema::extract(&decl), Err(ShapeError::NoFields));
}

#[test]
fn repeated_field_name_is_refused() {
    let decl = declaration(
        "Twice",
        DeclBody::Named(vec![
            field("a", TypeExpr::named("u8")),
            field("b", TypeExpr::named("u8")),
            field("c", TypeExpr::named("u8")),
            field("b", TypeExpr::named("u16")),
            field("a", TypeExpr::named("u16")),
        ]),
    );
    assert_eq!(RecordSchema::extract(&decl), Err(ShapeError::DuplicateField("b".to_string())));
}

#[test]
fn reasons_are_worded_per_shape() {
    assert_eq!(ShapeError::NotARecord.reason(), "it is not a record");
    assert_eq!(ShapeError::PositionalFields.reason(), "its fields are positional, not named");
    assert_eq!(ShapeError::NoFields.reason(), "it has no fields");
    assert_eq!(
        ShapeError::DuplicateField("path".to_string()).reason(),
        "its field path is declared more than once"
    );
}

#[test]
fn diagnostic_names_the_declaration_and_the_reason() {
    let diagnostic = diagnose("Shape", &ShapeError::NotARecord);
    assert_eq!(diagnostic.message, "cannot derive a builder for Shape: it is not a record");
    let diagnostic = diagnose("Pair", &ShapeError::PositionalFields);
    assert_eq!(
        diagnostic.message,
        "cannot derive a builder for Pair: its fields are positional, not named"
    );
}
