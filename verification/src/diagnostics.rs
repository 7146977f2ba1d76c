//! Turning an unsupported shape into a failure that a compiler can report.

use vstd::prelude::*;
use vstd::string::StringExecFns;
use crate::schema::{ShapeError, ShapeErrorView};

verus! {

/// A failure to report at the declaration, in place of any emitted code.
#[derive(Debug, PartialEq, Eq)]
pub struct Diagnostic {
    pub message: String,
}

impl View for Diagnostic {
    type V = Seq<char>;

    open spec fn view(&self) -> Seq<char> {
        self.message@
    }
}

/// Why the shape is not supported, in words.
pub open spec fn reason_spec(error: ShapeErrorView) -> Seq<char> {
    match error {
        ShapeErrorView::NotARecord => "it is not a record"@,
        ShapeErrorView::PositionalFields => "its fields are positional, not named"@,
        ShapeErrorView::NoFields => "it has no fields"@,
        ShapeErrorView::DuplicateField(name) => "its field "@ + name
            + " is declared more than once"@,
    }
}

/// The message reported where the declaration named `record` fails with `error`.
pub open spec fn message_spec(record: Seq<char>, error: ShapeErrorView) -> Seq<char> {
    "cannot derive a builder for "@ + record + ": "@ + reason_spec(error)
}

impl ShapeError {
    /// Why the shape is not supported, in words.
    pub fn reason(&self) -> (r: String)
        ensures
            r@ == reason_spec(self@),
    {
        match self {
            ShapeError::NotARecord => "it is not a record".to_owned(),
            ShapeError::PositionalFields => "its fields are positional, not named".to_owned(),
            ShapeError::NoFields => "it has no fields".to_owned(),
            ShapeError::DuplicateField(name) => "its field ".to_owned().concat(
                name.as_str(),
            ).concat(" is declared more than once"),
        }
    }
}

/// The diagnostic for the declaration named `record` that fails with `error`.
pub fn diagnose(record: &str, error: &ShapeError) -> (d: Diagnostic)
    ensures
        d@ == message_spec(record@, error@),
{
    let reason = error.reason();
    Diagnostic {
        message: "cannot derive a builder for ".to_owned().concat(record).concat(": ").concat(
            reason.as_str(),
        ),
    }
}

} // verus!
