//! The written form of a record declaration and of the types of its fields.

use vstd::prelude::*;

verus! {

/// A type as it is written in a field of a declaration.
#[derive(Debug, PartialEq, Eq)]
pub enum TypeExpr {
    /// A path, such as `String`, `Option<T>` or `std::vec::Vec<u8>`.
    Path(TypePath),
    /// Any other form (a reference, a tuple, an array, ...), kept as written.
    Other(String),
}

/// A path that names a type.
#[derive(Debug, PartialEq, Eq)]
pub struct TypePath {
    /// The self type of a qualified path, `<T as Trait>::Name`, if there is one.
    pub qself: Option<QSelf>,
    /// Whether the path starts with `::`.
    pub global: bool,
    /// The segments between the `::` separators, in order.
    pub segments: Vec<PathSegment>,
}

/// The self type in front of a qualified path.
#[derive(Debug, PartialEq, Eq)]
pub struct QSelf {
    /// The self type, kept as written.
    pub ty: String,
    /// The number of leading path segments that stand inside the angle brackets.
    pub position: usize,
}

/// One segment of a path: an identifier and the arguments written after it.
#[derive(Debug, PartialEq, Eq)]
pub struct PathSegment {
    pub ident: String,
    pub arguments: PathArguments,
}

/// The arguments written after the identifier of a path segment.
#[derive(Debug, PartialEq, Eq)]
pub enum PathArguments {
    /// No arguments, as in `String`.
    Absent,
    /// Arguments in angle brackets, as in `Option<T>`.
    AngleBracketed(Vec<GenericArgument>),
    /// Arguments in round brackets, as in `Fn(A) -> B`, kept as written.
    Parenthesized(String),
}

/// One argument between angle brackets.
#[derive(Debug, PartialEq, Eq)]
pub enum GenericArgument {
    /// A type.
    Type(TypeExpr),
    /// Anything else (a lifetime, a constant, a binding, a bound), kept as written.
    Other(String),
}

/// The declaration that a builder is asked for.
#[derive(Debug, PartialEq, Eq)]
pub struct Declaration {
    /// The name of the declared type.
    pub name: String,
    /// What kind of declaration it is, with the fields of a record.
    pub body: DeclBody,
}

/// The kinds of declaration, told apart by the form of the body.
#[derive(Debug, PartialEq, Eq)]
pub enum DeclBody {
    /// A record with fields in braces, `struct S { a: A, b: B }`.
    Named(Vec<FieldDecl>),
    /// A record with positional fields, `struct S(A, B);`.
    Tuple,
    /// A record without a body, `struct S;`.
    Unit,
    /// A sum type, `enum E { .. }`.
    Enum,
    /// An untagged union, `union U { .. }`.
    Union,
}

/// One named field of a record declaration.
#[derive(Debug, PartialEq, Eq)]
pub struct FieldDecl {
    pub name: String,
    pub ty: TypeExpr,
}

/// The mathematical value of a [`Declaration`].
pub struct DeclarationView {
    pub name: Seq<char>,
    pub body: DeclBodyView,
}

/// The mathematical value of a [`DeclBody`].
pub enum DeclBodyView {
    Named(Seq<FieldDeclView>),
    Tuple,
    Unit,
    Enum,
    Union,
}

/// The mathematical value of a [`FieldDecl`].
pub struct FieldDeclView {
    pub name: Seq<char>,
    pub ty: TypeView,
}

/// The mathematical value of a [`TypeExpr`].
pub enum TypeView {
    Path(TypePathView),
    Other(Seq<char>),
}

/// The mathematical value of a [`TypePath`].
pub struct TypePathView {
    pub qself: Option<QSelfView>,
    pub global: bool,
    pub segments: Seq<PathSegmentView>,
}

/// The mathematical value of a [`QSelf`].
pub struct QSelfView {
    pub ty: Seq<char>,
    pub position: nat,
}

/// The mathematical value of a [`PathSegment`].
pub struct PathSegmentView {
    pub ident: Seq<char>,
    pub arguments: PathArgumentsView,
}

/// The mathematical value of a [`PathArguments`].
pub enum PathArgumentsView {
    Absent,
    AngleBracketed(Seq<GenericArgumentView>),
    Parenthesized(Seq<char>),
}

/// The mathematical value of a [`GenericArgument`].
pub enum GenericArgumentView {
    Type(TypeView),
    Other(Seq<char>),
}

impl View for TypeExpr {
    type V = TypeView;

    open spec fn view(&self) -> TypeView
        decreases self,
    {
        match self {
            TypeExpr::Path(p) => TypeView::Path(p.view()),
            TypeExpr::Other(s) => TypeView::Other(s@),
        }
    }
}

impl View for TypePath {
    type V = TypePathView;

    open spec fn view(&self) -> TypePathView
        decreases self,
    {
        TypePathView {
            qself: match self.qself {
                Some(q) => Some(q@),
                None => None,
            },
            global: self.global,
            segments: Seq::new(
                self.segments.len() as nat,
                |i: int|
                    if 0 <= i < self.segments.len() {
                        self.segments[i].view()
                    } else {
                        arbitrary()
                    },
            ),
        }
    }
}

impl View for QSelf {
    type V = QSelfView;

    open spec fn view(&self) -> QSelfView {
        QSelfView { ty: self.ty@, position: self.position as nat }
    }
}

impl View for PathSegment {
    type V = PathSegmentView;

    open spec fn view(&self) -> PathSegmentView
        decreases self,
    {
        PathSegmentView { ident: self.ident@, arguments: self.arguments.view() }
    }
}

impl View for PathArguments {
    type V = PathArgumentsView;

    open spec fn view(&self) -> PathArgumentsView
        decreases self,
    {
        match self {
            PathArguments::Absent => PathArgumentsView::Absent,
            PathArguments::AngleBracketed(args) => PathArgumentsView::AngleBracketed(
                Seq::new(
                    args.len() as nat,
                    |i: int|
                        if 0 <= i < args.len() {
                            args[i].view()
                        } else {
                            arbitrary()
                        },
                ),
            ),
            PathArguments::Parenthesized(s) => PathArgumentsView::Parenthesized(s@),
        }
    }
}

impl View for GenericArgument {
    type V = GenericArgumentView;

    open spec fn view(&self) -> GenericArgumentView
        decreases self,
    {
        match self {
            GenericArgument::Type(t) => GenericArgumentView::Type(t.view()),
            GenericArgument::Other(s) => GenericArgumentView::Other(s@),
        }
    }
}

impl View for FieldDecl {
    type V = FieldDeclView;

    open spec fn view(&self) -> FieldDeclView {
        FieldDeclView { name: self.name@, ty: self.ty@ }
    }
}

impl View for DeclBody {
    type V = DeclBodyView;

    open spec fn view(&self) -> DeclBodyView {
        match self {
            DeclBody::Named(fields) => DeclBodyView::Named(fields@.map_values(|f: FieldDecl| f@)),
            DeclBody::Tuple => DeclBodyView::Tuple,
            DeclBody::Unit => DeclBodyView::Unit,
            DeclBody::Enum => DeclBodyView::Enum,
            DeclBody::Union => DeclBodyView::Union,
        }
    }
}

impl View for Declaration {
    type V = DeclarationView;

    open spec fn view(&self) -> DeclarationView {
        DeclarationView { name: self.name@, body: self.body@ }
    }
}

/// The path of one segment without arguments that is written as `name`.
pub open spec fn named_type(name: Seq<char>) -> TypeView {
    applied_type(name, PathArgumentsView::Absent)
}

/// The path of one segment that is written as `name` followed by `arguments`.
pub open spec fn applied_type(name: Seq<char>, arguments: PathArgumentsView) -> TypeView {
    TypeView::Path(
        TypePathView {
            qself: None,
            global: false,
            segments: seq![PathSegmentView { ident: name, arguments }],
        },
    )
}

impl TypeExpr {
    /// A type that is written as a single identifier, such as `String`.
    pub fn named(name: &str) -> (r: Self)
        ensures
            r@ == named_type(name@),
    {
        Self::applied(name, PathArguments::Absent)
    }

    /// A type that is written as an identifier with arguments, such as `Vec<u8>`.
    pub fn applied(name: &str, arguments: PathArguments) -> (r: Self)
        ensures
            r@ == applied_type(name@, arguments@),
    {
        let mut segments: Vec<PathSegment> = Vec::new();
        segments.push(PathSegment { ident: name.to_owned(), arguments });
        let r = TypeExpr::Path(TypePath { qself: None, global: false, segments });
        assert(r@->Path_0.segments =~= applied_type(name@, arguments@)->Path_0.segments);
        r
    }
}

impl Clone for TypeExpr {
    fn clone(&self) -> (r: Self)
        ensures
            r@ == self@,
        decreases self,
    {
        match self {
            TypeExpr::Path(p) => TypeExpr::Path(p.clone()),
            TypeExpr::Other(s) => TypeExpr::Other(s.clone()),
        }
    }
}

impl Clone for QSelf {
    fn clone(&self) -> (r: Self)
        ensures
            r@ == self@,
    {
        QSelf { ty: self.ty.clone(), position: self.position }
    }
}

impl Clone for TypePath {
    fn clone(&self) -> (r: Self)
        ensures
            r@ == self@,
        decreases self,
    {
        let qself = match &self.qself {
            Some(q) => Some(q.clone()),
            None => None,
        };
        let mut segments: Vec<PathSegment> = Vec::new();
        let mut i: usize = 0;
        while i < self.segments.len()
            invariant
                i <= self.segments.len(),
                segments.len() == i,
                forall|j: int| 0 <= j < i ==> segments[j]@ == self.segments[j]@,
            decreases self.segments.len() - i,
        {
            segments.push(self.segments[i].clone());
            i += 1;
        }
        let r = TypePath { qself, global: self.global, segments };
        assert(r@.segments =~= self@.segments);
        r
    }
}

impl Clone for PathSegment {
    fn clone(&self) -> (r: Self)
        ensures
            r@ == self@,
        decreases self,
    {
        PathSegment { ident: self.ident.clone(), arguments: self.arguments.clone() }
    }
}

impl Clone for PathArguments {
    fn clone(&self) -> (r: Self)
        ensures
            r@ == self@,
        decreases self,
    {
        match self {
            PathArguments::Absent => PathArguments::Absent,
            PathArguments::AngleBracketed(args) => {
                let mut copy: Vec<GenericArgument> = Vec::new();
                let mut i: usize = 0;
                while i < args.len()
                    invariant
                        *self == PathArguments::AngleBracketed(*args),
                        i <= args.len(),
                        copy.len() == i,
                        forall|j: int| 0 <= j < i ==> copy[j]@ == args[j]@,
                    decreases args.len() - i,
                {
                    assert(decreases_to!(self => self->AngleBracketed_0));
                    copy.push(args[i].clone());
                    i += 1;
                }
                let r = PathArguments::AngleBracketed(copy);
                assert(r@->AngleBracketed_0 =~= self@->AngleBracketed_0);
                r
            },
            PathArguments::Parenthesized(s) => PathArguments::Parenthesized(s.clone()),
        }
    }
}

impl Clone for GenericArgument {
    fn clone(&self) -> (r: Self)
        ensures
            r@ == self@,
        decreases self,
    {
        match self {
            GenericArgument::Type(t) => GenericArgument::Type(t.clone()),
            GenericArgument::Other(s) => GenericArgument::Other(s.clone()),
        }
    }
}

} // verus!
