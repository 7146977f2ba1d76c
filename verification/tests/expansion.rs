use builder::emit::{
    wrap_in_option, BuildDecl, BuilderDecl, Expansion, FactoryDecl, FieldInit, SetterDecl,
    SlotDecl, SlotRead,
};
use builder::schema::RecordSchema;
use builder::syntax::{DeclBody, Declaration, FieldDecl, GenericArgument, PathArguments, TypeExpr};

fn option_of(inner: TypeExpr) -> TypeExpr {
    TypeExpr::applied("Option", PathArguments::AngleBracketed(vec![GenericArgument::Type(inner)]))
}

fn field(name: &str, ty: TypeExpr) -> FieldDecl {
    FieldDecl { name: name.to_string(), ty }
}

fn command() -> Declaration {
    Declaration {
        name: "Command".to_string(),
        body: DeclBody::Named(vec![
            field("name", TypeExpr::named("String")),
            field("nickname", option_of(TypeExpr::named("String"))),
        ]),
    }
}

#[test]
fn builder_type_has_one_optional_slot_per_field() {
    let expansion = builder::derive(&command()).unwrap();
    assert_eq!(
        expansion.builder(),
        &BuilderDecl {
            doc: "Builder for Command".to_string(),
            name: "CommandBuilder".to_string(),
            slots: vec![
                SlotDecl {
                    name: "name".to_string(),
                    stored: wrap_in_option(TypeExpr::named("String")),
                },
                SlotDecl {
                    name: "nickname".to_string(),
                    stored: wrap_in_option(TypeExpr::named("String")),
                },
            ],
        }
    );
}

#[test]
fn setters_take_the_unwrapped_type() {
    let expansion = builder::derive(&command()).unwrap();
    assert_eq!(
        expansion.setters(),
        &vec![
            SetterDecl {
                doc: "Set value of field name".to_string(),
                name: "name".to_string(),
                param: TypeExpr::named("String"),
                slot: "name".to_string(),
            },
            SetterDecl {
                doc: "Set value of field nickname".to_string(),
                name: "nickname".to_string(),
                param: TypeExpr::named("String"),
                slot: "nickname".to_string(),
            },
        ]
    );
}

#[test]
fn finalization_requires_what_is_required_and_passes_the_rest() {
    let expansion = builder::derive(&command()).unwrap();
    assert_eq!(
        expansion.build(),
        &BuildDecl {
            doc: "Build a new Command from the values set in CommandBuilder. Fails if a required field is unset."
                .to_string(),
            record: "Command".to_string(),
            inits: vec![
                FieldInit {
                    field: "name".to_string(),
                    slot: "name".to_string(),
                    read: SlotRead::Require("missing required field: name".to_string()),
                },
                FieldInit {
                    field: "nickname".to_string(),
                    slot: "nickname".to_string(),
                    read: SlotRead::PassThrough,
                },
            ],
        }
    );
}

#[test]
fn factory_leaves_every_slot_empty() {
    let expansion = builder::derive(&command()).unwrap();
    assert_eq!(
        expansion.factory(),
        &FactoryDecl {
            doc: "Create a new empty CommandBuilder".to_string(),
            record: "Command".to_string(),
            builder: "CommandBuilder".to_string(),
            slots: vec!["name".to_string(), "nickname".to_string()],
        }
    );
}

#[test]
fn doubly_wrapped_field_keeps_the_inner_wrapper() {
    let decl = Declaration {
        name: "Deep".to_string(),
        body: DeclBody::Named(vec![field("x", option_of(option_of(TypeExpr::named("u8"))))]),
    };
    let expansion = builder::derive(&decl).unwrap();
    assert_eq!(expansion.setters()[0].param, option_of(TypeExpr::named("u8")));
    assert_eq!(
        expansion.builder().slots[0].stored,
        wrap_in_option(option_of(TypeExpr::named("u8")))
    );
    assert_eq!(expansion.build().inits[0].read, SlotRead::PassThrough);
}

#[test]
fn emit_of_the_schema_is_what_derive_gives() {
    let schema = RecordSchema::extract(&command()).unwrap();
    assert_eq!(Expansion::emit(&schema), builder::derive(&command()).unwrap());
}

#[test]
fn sum_type_gets_a_diagnostic_and_no_declarations() {
    let decl = Declaration { name: "Shape".to_string(), body: DeclBody::Enum };
    let diagnostic = builder::derive(&decl).unwrap_err();
    assert_eq!(diagnostic.message, "cannot derive a builder for Shape: it is not a record");
}

#[test]
fn union_gets_a_diagnostic_and_no_declarations() {
    let decl = Declaration { name: "Bits".to_string(), body: DeclBody::Union };
    let diagnostic = builder::derive(&decl).unwrap_err();
    assert_eq!(diagnostic.message, "cannot derive a builder for Bits: it is not a record");
}

#[test]
fn positional_record_gets_a_diagnostic_and_no_declarations() {
    let decl = Declaration { name: "Pair".to_string(), body: DeclBody::Tuple };
    let diagnostic = builder::derive(&decl).unwrap_err();
    assert_eq!(
        diagnostic.message,
        "cannot derive a builder for Pair: its fields are positional, not named"
    );
}

#[test]
fn record_without_fields_gets_a_diagnostic_and_no_declarations() {
    let unit = Declaration { name: "Marker".to_string(), body: DeclBody::Unit };
    assert_eq!(
        builder::derive(&unit).unwrap_err().message,
        "cannot derive a builder for Marker: it has no fields"
    );
    let empty = Declaration { name: "Empty".to_string(), body: DeclBody::Named(vec![]) };
    assert_eq!(
        builder::derive(&empty).unwrap_err().message,
        "cannot derive a builder for Empty: it has no fields"
    );
}

#[test]
fn repeated_field_gets_a_diagnostic_and_no_declarations() {
    let decl = Declaration {
        name: "Twice".to_string(),
        body: DeclBody::Named(vec![
            field("a", TypeExpr::named("u8")),
            field("a", TypeExpr::named("u8")),
        ]),
    };
    assert_eq!(
        builder::derive(&decl).unwrap_err().message,
        "cannot derive a builder for Twice: its field a is declared more than once"
    );
}
