//! The resolved package graph that bindings are generated from.
//!
//! Types live in an arena (`Package::types`) and refer to one another by
//! index, so self- and mutually-referential graphs need no cyclic values.

use vstd::prelude::*;

verus! {

/// Index of a type definition in `Package::types`.
pub type TypeId = usize;

/// A reference to a type: a primitive scalar or a definition of the package.
#[derive(Clone, Copy, Debug, PartialEq, Eq)]
pub enum Type {
    Bool,
    String,
    Char,
    Float32,
    Float64,
    S8,
    S16,
    S32,
    S64,
    U8,
    U16,
    U32,
    U64,
    Id(TypeId),
}

/// Documentation attached to a node of the graph.
#[derive(Clone, Debug)]
pub struct Docs {
    pub contents: Option<String>,
}

/// A named, typed field of a record.
#[derive(Clone, Debug)]
pub struct Field {
    pub name: String,
    pub ty: Type,
    pub docs: Docs,
}

/// A case of an enum: a name, with no payload.
#[derive(Clone, Debug)]
pub struct EnumCase {
    pub name: String,
    pub docs: Docs,
}

/// A case of a union, told apart from the others by its payload type.
#[derive(Clone, Debug)]
pub struct UnionCase {
    pub ty: Type,
    pub docs: Docs,
}

/// A case of a variant: a name and an optional payload type.
#[derive(Clone, Debug)]
pub struct Case {
    pub name: String,
    pub ty: Option<Type>,
    pub docs: Docs,
}

/// A named bit of a flags type.
#[derive(Clone, Debug)]
pub struct Flag {
    pub name: String,
    pub docs: Docs,
}

/// What a type definition is.
#[derive(Clone, Debug)]
pub enum TypeDefKind {
    Record(Vec<Field>),
    Enum(Vec<EnumCase>),
    Union(Vec<UnionCase>),
    Variant(Vec<Case>),
    Flags(Vec<Flag>),
    Tuple(Vec<Type>),
    Option(Type),
    Result { ok: Option<Type>, err: Option<Type> },
    List(Type),
    Future(Option<Type>),
    Stream { element: Option<Type>, end: Option<Type> },
    /// An alias of another type.
    Type(Type),
    /// A kind that this generator has no rendering for.
    Unknown,
}

/// A type definition of the package.
#[derive(Clone, Debug)]
pub struct TypeDef {
    pub name: Option<String>,
    pub kind: TypeDefKind,
    pub docs: Docs,
}

/// The results of a function: one anonymous type or a list of named ones.
#[derive(Clone, Debug)]
pub enum Results {
    Named(Vec<(String, Type)>),
    Anon(Type),
}

/// A function of an interface.
#[derive(Clone, Debug)]
pub struct Function {
    pub name: String,
    pub docs: Docs,
    pub params: Vec<(String, Type)>,
    pub results: Results,
}

/// A named interface: an ordered list of functions.
#[derive(Clone, Debug)]
pub struct Interface {
    pub name: String,
    pub docs: Docs,
    pub functions: Vec<Function>,
}

/// The whole graph: the type arena and the interfaces, in declaration order.
#[derive(Clone, Debug)]
pub struct Package {
    pub types: Vec<TypeDef>,
    pub interfaces: Vec<Interface>,
}

impl Type {
    /// Whether this is a reference to a definition rather than a scalar.
    pub open spec fn is_id(self) -> bool {
        self is Id
    }
}

/// The name of a definition as characters; an unnamed one reads as empty.
pub open spec fn name_seq(d: TypeDef) -> Seq<char> {
    match d.name {
        Some(n) => n@,
        None => Seq::empty(),
    }
}

} // verus!
