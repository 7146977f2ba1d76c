//! The schema of a record: its name and its classified fields, in order.

use vstd::prelude::*;
use crate::classify::{classify, classify_spec, Classification, ClassificationView};
use crate::syntax::{DeclBody, DeclBodyView, Declaration, DeclarationView, FieldDecl, FieldDeclView, TypeExpr, TypeView};

verus! {

/// One field of a record, with the classification derived from its type.
#[derive(Debug, PartialEq, Eq)]
pub struct FieldSchema {
    pub name: String,
    /// The type as the declaration has it.
    pub declared: TypeExpr,
    /// Whether the field is required, and the type its setter takes.
    pub classification: Classification,
}

/// The mathematical value of a [`FieldSchema`].
pub struct FieldSchemaView {
    pub name: Seq<char>,
    pub declared: TypeView,
    pub classification: ClassificationView,
}

impl View for FieldSchema {
    type V = FieldSchemaView;

    open spec fn view(&self) -> FieldSchemaView {
        FieldSchemaView {
            name: self.name@,
            declared: self.declared@,
            classification: self.classification@,
        }
    }
}

/// The field of a schema that stands for the declared field `field`.
pub open spec fn field_schema_of(field: FieldDeclView) -> FieldSchemaView {
    FieldSchemaView {
        name: field.name,
        declared: field.ty,
        classification: classify_spec(field.ty),
    }
}

/// The mathematical value of a [`RecordSchema`].
pub struct RecordSchemaView {
    pub name: Seq<char>,
    pub fields: Seq<FieldSchemaView>,
}

impl RecordSchemaView {
    /// The names of the fields, in order.
    pub open spec fn names(self) -> Seq<Seq<char>> {
        self.fields.map_values(|f: FieldSchemaView| f.name)
    }

    /// A schema has at least one field, no two fields of one name, and for
    /// each field the classification that its declared type gives.
    pub open spec fn wf(self) -> bool {
        &&& self.fields.len() > 0
        &&& self.names().no_duplicates()
        &&& forall|i: int|
            0 <= i < self.fields.len() ==> (#[trigger] self.fields[i]).classification
                == classify_spec(self.fields[i].declared)
    }
}

/// The schema of a record declaration. Every value of this type is
/// well-formed in the sense of [`RecordSchemaView::wf`].
#[derive(Debug, PartialEq, Eq)]
pub struct RecordSchema {
    name: String,
    fields: Vec<FieldSchema>,
}

impl View for RecordSchema {
    type V = RecordSchemaView;

    closed spec fn view(&self) -> RecordSchemaView {
        RecordSchemaView { name: self.name@, fields: self.fields@.map_values(|f: FieldSchema| f@) }
    }
}

/// Why a declaration has no schema.
#[derive(Debug, PartialEq, Eq)]
pub enum ShapeError {
    /// The declaration is a sum type or a union, no record at all.
    NotARecord,
    /// The record's fields are positional.
    PositionalFields,
    /// The record has no fields: it is written without a body, or with empty braces.
    NoFields,
    /// Two fields of the record have one name; the name is carried.
    DuplicateField(String),
}

/// The mathematical value of a [`ShapeError`].
pub enum ShapeErrorView {
    NotARecord,
    PositionalFields,
    NoFields,
    DuplicateField(Seq<char>),
}

impl View for ShapeError {
    type V = ShapeErrorView;

    open spec fn view(&self) -> ShapeErrorView {
        match self {
            ShapeError::NotARecord => ShapeErrorView::NotARecord,
            ShapeError::PositionalFields => ShapeErrorView::PositionalFields,
            ShapeError::NoFields => ShapeErrorView::NoFields,
            ShapeError::DuplicateField(name) => ShapeErrorView::DuplicateField(name@),
        }
    }
}

/// Whether the name at `at` also stands at an earlier place of `names`.
pub open spec fn repeats_earlier(names: Seq<Seq<char>>, at: int) -> bool {
    exists|i: int| 0 <= i < at && names[i] == names[at]
}

/// The first place from `from` on whose name repeats an earlier one.
pub open spec fn first_repeat(names: Seq<Seq<char>>, from: int) -> Option<int>
    decreases names.len() - from,
{
    if from >= names.len() {
        None
    } else if repeats_earlier(names, from) {
        Some(from)
    } else {
        first_repeat(names, from + 1)
    }
}

/// What extraction gives for a declaration: its schema, or the reason why
/// its shape is not supported.
pub open spec fn extract_spec(decl: DeclarationView) -> Result<RecordSchemaView, ShapeErrorView> {
    match decl.body {
        DeclBodyView::Enum => Err(ShapeErrorView::NotARecord),
        DeclBodyView::Union => Err(ShapeErrorView::NotARecord),
        DeclBodyView::Tuple => Err(ShapeErrorView::PositionalFields),
        DeclBodyView::Unit => Err(ShapeErrorView::NoFields),
        DeclBodyView::Named(fields) => {
            let names = fields.map_values(|f: FieldDeclView| f.name);
            if fields.len() == 0 {
                Err(ShapeErrorView::NoFields)
            } else {
                match first_repeat(names, 0) {
                    Some(at) => Err(ShapeErrorView::DuplicateField(names[at])),
                    None => Ok(
                        RecordSchemaView {
                            name: decl.name,
                            fields: fields.map_values(|f: FieldDeclView| field_schema_of(f)),
                        },
                    ),
                }
            }
        },
    }
}

/// Where no place from `from` on repeats an earlier name, and none before
/// `from` does, the names are pairwise distinct; a place that is found is
/// the least that repeats.
pub proof fn lemma_first_repeat(names: Seq<Seq<char>>, from: int)
    requires
        0 <= from <= names.len(),
        forall|j: int| 0 <= j < from ==> !repeats_earlier(names, j),
    ensures
        first_repeat(names, from) is None ==> names.no_duplicates(),
        first_repeat(names, from) matches Some(at) ==> {
            &&& from <= at < names.len()
            &&& repeats_earlier(names, at)
            &&& forall|j: int| 0 <= j < at ==> !repeats_earlier(names, j)
        },
    decreases names.len() - from,
{
    if from >= names.len() {
        assert forall|i: int, j: int| 0 <= i < names.len() && 0 <= j < names.len() && i != j
            implies names[i] != names[j] by {
            if i < j {
                assert(!repeats_earlier(names, j));
            } else {
                assert(!repeats_earlier(names, i));
            }
        }
    } else if repeats_earlier(names, from) {
    } else {
        lemma_first_repeat(names, from + 1);
    }
}

/// A declaration has a schema exactly where it is a record with named
/// fields, at least one of them, and no two of one name. The schema then
/// is well-formed, carries the record's name, and has the fields in the
/// order of the declaration, each with its name and its declared type.
pub proof fn law_supported_shapes(decl: DeclarationView)
    ensures
        extract_spec(decl) is Ok <==> {
            &&& decl.body is Named
            &&& decl.body->Named_0.len() > 0
            &&& decl.body->Named_0.map_values(|f: FieldDeclView| f.name).no_duplicates()
        },
        extract_spec(decl) matches Ok(schema) ==> {
            &&& schema.wf()
            &&& schema.name == decl.name
            &&& schema.fields.len() == decl.body->Named_0.len()
            &&& forall|i: int|
                0 <= i < schema.fields.len() ==> {
                    &&& (#[trigger] schema.fields[i]).name == decl.body->Named_0[i].name
                    &&& schema.fields[i].declared == decl.body->Named_0[i].ty
                }
        },
{
    if decl.body is Named && decl.body->Named_0.len() > 0 {
        let fields = decl.body->Named_0;
        let names = fields.map_values(|f: FieldDeclView| f.name);
        lemma_first_repeat(names, 0);
        if first_repeat(names, 0) is Some {
            let at = first_repeat(names, 0)->Some_0;
            let i = choose|i: int| 0 <= i < at && names[i] == names[at];
            assert(names[i] == names[at]);
        } else {
            let schema = extract_spec(decl)->Ok_0;
            assert(schema.names() =~= names);
        }
    }
}

impl RecordSchema {
    #[verifier::type_invariant]
    spec fn inv(&self) -> bool {
        self@.wf()
    }

    /// The name of the record.
    pub fn name(&self) -> (r: &String)
        ensures
            r@ == self@.name,
    {
        &self.name
    }

    /// The fields of the record, in the order of the declaration.
    pub fn fields(&self) -> (r: &Vec<FieldSchema>)
        ensures
            r@.map_values(|f: FieldSchema| f@) == self@.fields,
            self@.wf(),
    {
        proof {
            use_type_invariant(self);
        }
        &self.fields
    }

    /// The schema of `decl`, where its shape is supported.
    pub fn extract(decl: &Declaration) -> (r: Result<RecordSchema, ShapeError>)
        ensures
            match extract_spec(decl@) {
                Ok(schema) => r is Ok && r->Ok_0@ == schema && schema.wf(),
                Err(error) => r is Err && r->Err_0@ == error,
            },
    {
        let fields = match &decl.body {
            DeclBody::Named(fields) => fields,
            DeclBody::Tuple => { return Err(ShapeError::PositionalFields); },
            DeclBody::Unit => { return Err(ShapeError::NoFields); },
            DeclBody::Enum => { return Err(ShapeError::NotARecord); },
            DeclBody::Union => { return Err(ShapeError::NotARecord); },
        };
        if fields.len() == 0 {
            return Err(ShapeError::NoFields);
        }
        let ghost decls = fields@.map_values(|f: FieldDecl| f@);
        let ghost names = decls.map_values(|f: FieldDeclView| f.name);
        let mut out: Vec<FieldSchema> = Vec::new();
        let mut j: usize = 0;
        while j < fields.len()
            invariant
                j <= fields.len(),
                decl@.body == DeclBodyView::Named(decls),
                decls == fields@.map_values(|f: FieldDecl| f@),
                names == decls.map_values(|f: FieldDeclView| f.name),
                forall|k: int| 0 <= k < j ==> !repeats_earlier(names, k),
                out.len() == j,
                forall|k: int| 0 <= k < j ==> (#[trigger] out[k])@ == field_schema_of(decls[k]),
            decreases fields.len() - j,
        {
            let mut i: usize = 0;
            while i < j
                invariant
                    i <= j < fields.len(),
                    decl@.body == DeclBodyView::Named(decls),
                    decls == fields@.map_values(|f: FieldDecl| f@),
                    names == decls.map_values(|f: FieldDeclView| f.name),
                    forall|k: int| 0 <= k < j ==> !repeats_earlier(names, k),
                    forall|k: int| 0 <= k < i ==> names[k] != names[j as int],
                decreases j - i,
            {
                assert(names[i as int] == fields[i as int].name@);
                assert(names[j as int] == fields[j as int].name@);
                if fields[i].name == fields[j].name {
                    proof {
                        assert(repeats_earlier(names, j as int));
                        lemma_first_repeat(names, 0);
                    }
                    return Err(ShapeError::DuplicateField(fields[j].name.clone()));
                }
                i += 1;
            }
            out.push(
                FieldSchema {
                    name: fields[j].name.clone(),
                    declared: fields[j].ty.clone(),
                    classification: classify(&fields[j].ty),
                },
            );
            j += 1;
        }
        proof {
            lemma_first_repeat(names, 0);
        }
        let name = decl.name.clone();
        proof {
            let expected = extract_spec(decl@)->Ok_0;
            let made = RecordSchemaView { name: name@, fields: out@.map_values(|f: FieldSchema| f@) };
            assert(made.fields =~= expected.fields);
            assert(made.names() =~= names);
        }
        Ok(RecordSchema { name, fields: out })
    }
}

} // verus!
