//! The declarations that make up a builder, laid out as a tree.
//!
//! Four parts are emitted together: the builder type with one slot per
//! field, one setter per field, the finalization that makes the record from
//! the slots, and the factory that makes an empty builder.

use vstd::prelude::*;
use vstd::string::StringExecFns;
use crate::classify::{Classification, ClassificationView};
use crate::schema::{FieldSchema, FieldSchemaView, RecordSchema, RecordSchemaView};
use crate::syntax::{
    GenericArgument, GenericArgumentView, PathArguments, PathArgumentsView, PathSegment,
    PathSegmentView, TypeExpr, TypePath, TypePathView, TypeView,
};

verus! {

/// One slot of the builder type: a field that holds a value or nothing.
#[derive(Debug, PartialEq, Eq)]
pub struct SlotDecl {
    pub name: String,
    /// The type of the slot: the full path of the optional wrapper around
    /// the field's effective type.
    pub stored: TypeExpr,
}

/// The builder type.
#[derive(Debug, PartialEq, Eq)]
pub struct BuilderDecl {
    pub doc: String,
    pub name: String,
    pub slots: Vec<SlotDecl>,
}

/// A setter: a method of the builder that takes a value of type `param`,
/// stores it as present in the slot named `slot`, and gives the builder back
/// by mutable reference.
#[derive(Debug, PartialEq, Eq)]
pub struct SetterDecl {
    pub doc: String,
    pub name: String,
    pub param: TypeExpr,
    pub slot: String,
}

/// How finalization reads a slot.
#[derive(Debug, PartialEq, Eq)]
pub enum SlotRead {
    /// The slot must hold a value, which becomes the field; where it holds
    /// none, finalization fails with the message carried here.
    Require(String),
    /// The slot's content, a value or nothing, becomes the field as it is.
    PassThrough,
}

/// The initialization of one field of the record from one slot.
#[derive(Debug, PartialEq, Eq)]
pub struct FieldInit {
    pub field: String,
    pub slot: String,
    pub read: SlotRead,
}

/// The finalization: a method of the builder that makes the record named
/// `record`, one field after the other, and stops at the first that fails.
#[derive(Debug, PartialEq, Eq)]
pub struct BuildDecl {
    pub doc: String,
    pub record: String,
    pub inits: Vec<FieldInit>,
}

/// The factory: a function of the record type that takes nothing and gives
/// a builder in which each of `slots` holds nothing.
#[derive(Debug, PartialEq, Eq)]
pub struct FactoryDecl {
    pub doc: String,
    pub record: String,
    pub builder: String,
    pub slots: Vec<String>,
}

/// The declarations emitted for one record. Every value of this type is
/// consistent in the sense of [`ExpansionView::consistent`].
#[derive(Debug, PartialEq, Eq)]
pub struct Expansion {
    builder: BuilderDecl,
    setters: Vec<SetterDecl>,
    build: BuildDecl,
    factory: FactoryDecl,
}

/// The mathematical value of a [`SlotDecl`].
pub struct SlotDeclView {
    pub name: Seq<char>,
    pub stored: TypeView,
}

/// The mathematical value of a [`BuilderDecl`].
pub struct BuilderDeclView {
    pub doc: Seq<char>,
    pub name: Seq<char>,
    pub slots: Seq<SlotDeclView>,
}

/// The mathematical value of a [`SetterDecl`].
pub struct SetterDeclView {
    pub doc: Seq<char>,
    pub name: Seq<char>,
    pub param: TypeView,
    pub slot: Seq<char>,
}

/// The mathematical value of a [`SlotRead`].
pub enum SlotReadView {
    Require(Seq<char>),
    PassThrough,
}

/// The mathematical value of a [`FieldInit`].
pub struct FieldInitView {
    pub field: Seq<char>,
    pub slot: Seq<char>,
    pub read: SlotReadView,
}

/// The mathematical value of a [`BuildDecl`].
pub struct BuildDeclView {
    pub doc: Seq<char>,
    pub record: Seq<char>,
    pub inits: Seq<FieldInitView>,
}

/// The mathematical value of a [`FactoryDecl`].
pub struct FactoryDeclView {
    pub doc: Seq<char>,
    pub record: Seq<char>,
    pub builder: Seq<char>,
    pub slots: Seq<Seq<char>>,
}

/// The mathematical value of an [`Expansion`].
pub struct ExpansionView {
    pub builder: BuilderDeclView,
    pub setters: Seq<SetterDeclView>,
    pub build: BuildDeclView,
    pub factory: FactoryDeclView,
}

impl View for SlotDecl {
    type V = SlotDeclView;

    open spec fn view(&self) -> SlotDeclView {
        SlotDeclView { name: self.name@, stored: self.stored@ }
    }
}

impl View for BuilderDecl {
    type V = BuilderDeclView;

    open spec fn view(&self) -> BuilderDeclView {
        BuilderDeclView {
            doc: self.doc@,
            name: self.name@,
            slots: self.slots@.map_values(|s: SlotDecl| s@),
        }
    }
}

impl View for SetterDecl {
    type V = SetterDeclView;

    open spec fn view(&self) -> SetterDeclView {
        SetterDeclView { doc: self.doc@, name: self.name@, param: self.param@, slot: self.slot@ }
    }
}

impl View for SlotRead {
    type V = SlotReadView;

    open spec fn view(&self) -> SlotReadView {
        match self {
            SlotRead::Require(message) => SlotReadView::Require(message@),
            SlotRead::PassThrough => SlotReadView::PassThrough,
        }
    }
}

impl View for FieldInit {
    type V = FieldInitView;

    open spec fn view(&self) -> FieldInitView {
        FieldInitView { field: self.field@, slot: self.slot@, read: self.read@ }
    }
}

impl View for BuildDecl {
    type V = BuildDeclView;

    open spec fn view(&self) -> BuildDeclView {
        BuildDeclView {
            doc: self.doc@,
            record: self.record@,
            inits: self.inits@.map_values(|i: FieldInit| i@),
        }
    }
}

impl View for FactoryDecl {
    type V = FactoryDeclView;

    open spec fn view(&self) -> FactoryDeclView {
        FactoryDeclView {
            doc: self.doc@,
            record: self.record@,
            builder: self.builder@,
            slots: self.slots@.map_values(|s: String| s@),
        }
    }
}

impl View for Expansion {
    type V = ExpansionView;

    closed spec fn view(&self) -> ExpansionView {
        ExpansionView {
            builder: self.builder@,
            setters: self.setters@.map_values(|s: SetterDecl| s@),
            build: self.build@,
            factory: self.factory@,
        }
    }
}

/// The name of the builder type of the record named `record`.
pub open spec fn builder_name(record: Seq<char>) -> Seq<char> {
    record + "Builder"@
}

/// The message with which finalization fails where `field` was not set.
pub open spec fn missing_message(field: Seq<char>) -> Seq<char> {
    "missing required field: "@ + field
}

/// The documentation of the builder type.
pub open spec fn builder_doc(record: Seq<char>) -> Seq<char> {
    "Builder for "@ + record
}

/// The documentation of the setter of `field`.
pub open spec fn setter_doc(field: Seq<char>) -> Seq<char> {
    "Set value of field "@ + field
}

/// The documentation of the finalization.
pub open spec fn build_doc(record: Seq<char>) -> Seq<char> {
    "Build a new "@ + record + " from the values set in "@ + builder_name(record)
        + ". Fails if a required field is unset."@
}

/// The documentation of the factory.
pub open spec fn factory_doc(record: Seq<char>) -> Seq<char> {
    "Create a new empty "@ + builder_name(record)
}

/// A path segment without arguments.
pub open spec fn plain_segment(ident: Seq<char>) -> PathSegmentView {
    PathSegmentView { ident, arguments: PathArgumentsView::Absent }
}

/// The type of a slot for values of type `inner`: `std::option::Option<inner>`.
pub open spec fn option_of(inner: TypeView) -> TypeView {
    TypeView::Path(
        TypePathView {
            qself: None,
            global: false,
            segments: seq![
                plain_segment("std"@),
                plain_segment("option"@),
                PathSegmentView {
                    ident: "Option"@,
                    arguments: PathArgumentsView::AngleBracketed(
                        seq![GenericArgumentView::Type(inner)],
                    ),
                },
            ],
        },
    )
}

/// The slot emitted for `field`.
pub open spec fn slot_of(field: FieldSchemaView) -> SlotDeclView {
    SlotDeclView { name: field.name, stored: option_of(field.classification.effective()) }
}

/// The setter emitted for `field`.
pub open spec fn setter_of(field: FieldSchemaView) -> SetterDeclView {
    SetterDeclView {
        doc: setter_doc(field.name),
        name: field.name,
        param: field.classification.effective(),
        slot: field.name,
    }
}

/// The initialization emitted for `field`.
pub open spec fn init_of(field: FieldSchemaView) -> FieldInitView {
    FieldInitView {
        field: field.name,
        slot: field.name,
        read: match field.classification {
            ClassificationView::Required(_) => SlotReadView::Require(missing_message(field.name)),
            ClassificationView::Optional(_) => SlotReadView::PassThrough,
        },
    }
}

/// The declarations emitted for `schema`.
pub open spec fn emit_spec(schema: RecordSchemaView) -> ExpansionView {
    ExpansionView {
        builder: BuilderDeclView {
            doc: builder_doc(schema.name),
            name: builder_name(schema.name),
            slots: schema.fields.map_values(|f: FieldSchemaView| slot_of(f)),
        },
        setters: schema.fields.map_values(|f: FieldSchemaView| setter_of(f)),
        build: BuildDeclView {
            doc: build_doc(schema.name),
            record: schema.name,
            inits: schema.fields.map_values(|f: FieldSchemaView| init_of(f)),
        },
        factory: FactoryDeclView {
            doc: factory_doc(schema.name),
            record: schema.name,
            builder: builder_name(schema.name),
            slots: schema.fields.map_values(|f: FieldSchemaView| f.name),
        },
    }
}

impl ExpansionView {
    /// The names of the builder's slots, in order.
    pub open spec fn slot_names(self) -> Seq<Seq<char>> {
        self.builder.slots.map_values(|s: SlotDeclView| s.name)
    }

    /// The four parts fit together: no two slots have one name; the setters
    /// and the initializations stand one to one beside the slots, each
    /// naming its slot, each setter taking what its slot wraps; and the
    /// factory fills exactly the slots of the builder type it names, for the
    /// record that finalization makes.
    pub open spec fn consistent(self) -> bool {
        &&& self.slot_names().no_duplicates()
        &&& self.setters.len() == self.builder.slots.len()
        &&& self.build.inits.len() == self.builder.slots.len()
        &&& forall|i: int|
            0 <= i < self.builder.slots.len() ==> {
                &&& (#[trigger] self.setters[i]).name == self.builder.slots[i].name
                &&& self.setters[i].slot == self.builder.slots[i].name
                &&& self.builder.slots[i].stored == option_of(self.setters[i].param)
            }
        &&& forall|i: int|
            0 <= i < self.builder.slots.len() ==> {
                &&& (#[trigger] self.build.inits[i]).field == self.builder.slots[i].name
                &&& self.build.inits[i].slot == self.builder.slots[i].name
            }
        &&& self.factory.slots == self.slot_names()
        &&& self.factory.builder == self.builder.name
        &&& self.factory.record == self.build.record
    }
}

/// What is emitted for a well-formed schema is consistent.
pub proof fn lemma_emitted_is_consistent(schema: RecordSchemaView)
    requires
        schema.wf(),
    ensures
        emit_spec(schema).consistent(),
{
    let e = emit_spec(schema);
    assert(e.slot_names() =~= schema.names());
    assert(e.factory.slots =~= e.slot_names());
}

/// The text of `head` followed by the text of `tail`.
fn join(head: &str, tail: &str) -> (r: String)
    ensures
        r@ == head@ + tail@,
{
    let r = head.to_owned().concat(tail);
    r
}

/// The type of a slot for values of type `inner`.
pub fn wrap_in_option(inner: TypeExpr) -> (r: TypeExpr)
    ensures
        r@ == option_of(inner@),
{
    let mut args: Vec<GenericArgument> = Vec::new();
    args.push(GenericArgument::Type(inner));
    let arguments = PathArguments::AngleBracketed(args);
    assert(arguments@->AngleBracketed_0 =~= seq![GenericArgumentView::Type(inner@)]);
    let mut segments: Vec<PathSegment> = Vec::new();
    segments.push(PathSegment { ident: "std".to_owned(), arguments: PathArguments::Absent });
    segments.push(PathSegment { ident: "option".to_owned(), arguments: PathArguments::Absent });
    segments.push(PathSegment { ident: "Option".to_owned(), arguments });
    let r = TypeExpr::Path(TypePath { qself: None, global: false, segments });
    assert(r@->Path_0.segments =~= option_of(inner@)->Path_0.segments);
    r
}

impl Expansion {
    #[verifier::type_invariant]
    spec fn inv(&self) -> bool {
        self@.consistent()
    }

    /// Emits the builder's declarations for `schema`.
    pub fn emit(schema: &RecordSchema) -> (r: Expansion)
        ensures
            r@ == emit_spec(schema@),
            r@.consistent(),
    {
        let fields = schema.fields();
        let record = schema.name();
        let ghost shown = schema@.fields;
        let mut slots: Vec<SlotDecl> = Vec::new();
        let mut setters: Vec<SetterDecl> = Vec::new();
        let mut inits: Vec<FieldInit> = Vec::new();
        let mut names: Vec<String> = Vec::new();
        let mut i: usize = 0;
        while i < fields.len()
            invariant
                i <= fields.len(),
                shown == fields@.map_values(|f: FieldSchema| f@),
                slots.len() == i,
                setters.len() == i,
                inits.len() == i,
                names.len() == i,
                forall|k: int| 0 <= k < i ==> (#[trigger] slots[k])@ == slot_of(shown[k]),
                forall|k: int| 0 <= k < i ==> (#[trigger] setters[k])@ == setter_of(shown[k]),
                forall|k: int| 0 <= k < i ==> (#[trigger] inits[k])@ == init_of(shown[k]),
                forall|k: int| 0 <= k < i ==> (#[trigger] names[k])@ == shown[k].name,
            decreases fields.len() - i,
        {
            let field = &fields[i];
            assert(field@ == shown[i as int]);
            let effective = field.classification.effective();
            slots.push(
                SlotDecl { name: field.name.clone(), stored: wrap_in_option(effective.clone()) },
            );
            setters.push(
                SetterDecl {
                    doc: join("Set value of field ", field.name.as_str()),
                    name: field.name.clone(),
                    param: effective.clone(),
                    slot: field.name.clone(),
                },
            );
            let read = match &field.classification {
                Classification::Required(_) => SlotRead::Require(
                    join("missing required field: ", field.name.as_str()),
                ),
                Classification::Optional(_) => SlotRead::PassThrough,
            };
            inits.push(FieldInit { field: field.name.clone(), slot: field.name.clone(), read });
            names.push(field.name.clone());
            i += 1;
        }
        let builder_name = join(record.as_str(), "Builder");
        let builder = BuilderDecl {
            doc: join("Builder for ", record.as_str()),
            name: builder_name.clone(),
            slots,
        };
        let build = BuildDecl {
            doc: join("Build a new ", record.as_str()).concat(" from the values set in ").concat(
                builder_name.as_str(),
            ).concat(". Fails if a required field is unset."),
            record: record.clone(),
            inits,
        };
        let factory = FactoryDecl {
            doc: join("Create a new empty ", builder_name.as_str()),
            record: record.clone(),
            builder: builder_name,
            slots: names,
        };
        proof {
            let expected = emit_spec(schema@);
            let made = ExpansionView {
                builder: builder@,
                setters: setters@.map_values(|s: SetterDecl| s@),
                build: build@,
                factory: factory@,
            };
            assert(made.builder.slots =~= expected.builder.slots);
            assert(made.setters =~= expected.setters);
            assert(made.build.inits =~= expected.build.inits);
            assert(made.factory.slots =~= expected.factory.slots);
            assert(made == expected);
            lemma_emitted_is_consistent(schema@);
        }
        Expansion { builder, setters, build, factory }
    }

    /// The builder type.
    pub fn builder(&self) -> (r: &BuilderDecl)
        ensures
            r@ == self@.builder,
            self@.consistent(),
    {
        proof {
            use_type_invariant(self);
        }
        &self.builder
    }

    /// The setters, one per slot and in the order of the slots.
    pub fn setters(&self) -> (r: &Vec<SetterDecl>)
        ensures
            r@.map_values(|s: SetterDecl| s@) == self@.setters,
            self@.consistent(),
    {
        proof {
            use_type_invariant(self);
        }
        &self.setters
    }

    /// The finalization.
    pub fn build(&self) -> (r: &BuildDecl)
        ensures
            r@ == self@.build,
            self@.consistent(),
    {
        proof {
            use_type_invariant(self);
        }
        &self.build
    }

    /// The factory.
    pub fn factory(&self) -> (r: &FactoryDecl)
        ensures
            r@ == self@.factory,
            self@.consistent(),
    {
        proof {
            use_type_invariant(self);
        }
        &self.factory
    }
}

} // verus!
