//! A generator of builder types for records with named fields.
//!
//! A record declaration is analysed into a schema, each field is classified
//! as required or optional by the written form of its type, and a builder
//! type with its setters, its finalization and its factory is laid out as a
//! tree of declarations.
//!
//! - [`syntax`]: the declaration and the types of its fields, as written.
//! - [`schema`]: the record's name and classified fields, or why it has none.
//! - [`classify`]: which written types make a field optional.
//! - [`emit`]: the builder's declarations for a schema.
//! - [`diagnostics`]: the failure reported for an unsupported declaration.
//! - [`semantics`]: what the emitted declarations do, and the laws of it.
//! - [`runtime`]: a builder that carries the emitted declarations out.

use vstd::prelude::*;
use crate::diagnostics::{message_spec, diagnose, Diagnostic};
use crate::emit::{emit_spec, Expansion};
use crate::schema::{extract_spec, RecordSchema};
use crate::syntax::Declaration;

pub mod classify;
pub mod diagnostics;
pub mod emit;
pub mod runtime;
pub mod schema;
pub mod semantics;
pub mod syntax;

verus! {

/// Derives the builder of the record that `input` declares.
///
/// A record with at least one field, all named and no two of one name, gets
/// the declarations emitted for its schema. Any other declaration gets a
/// diagnostic and no declarations.
pub fn derive(input: &Declaration) -> (r: Result<Expansion, Diagnostic>)
    ensures
        match extract_spec(input@) {
            Ok(schema) => r is Ok && r->Ok_0@ == emit_spec(schema) && schema.wf(),
            Err(error) => r is Err && r->Err_0@ == message_spec(input@.name, error),
        },
{
    match RecordSchema::extract(input) {
        Ok(schema) => Ok(Expansion::emit(&schema)),
        Err(error) => Err(diagnose(input.name.as_str(), &error)),
    }
}

} // verus!
