//! Definitions: the Dart class, enum or alias that each kind of type
//! definition stands for.

use vstd::prelude::*;
use crate::generate::{
    GenError, Parsed, text_of, wrapped, joined, concat_texts, lemma_joined_error, lemma_joined_push,
    lemma_joined_whole, lemma_concat_push, lemma_concat_whole, str_of,
};
use crate::model::{Type, TypeDef, TypeDefKind, Package, Field, EnumCase, UnionCase, Case, Flag, name_seq};
use crate::names::{budget, idiom_name};
use crate::naming::{pascal_of, lower_camel_of, pascal_case, lower_camel_case};
use crate::text::{doc_text, decimal, add_docs, push_decimal};

verus! {

/// A record field: an immutable field of the field's idiomatic type.
pub open spec fn field_text(p: Package, f: Field) -> Result<Seq<char>, GenError> {
    wrapped(doc_text(f.docs.contents) + "final "@, idiom_name(p, f.ty), " "@ + f.name@ + ";"@)
}

/// A record field as a required named constructor parameter.
pub open spec fn ctor_param_text(f: Field) -> Seq<char> {
    "required this."@ + f.name@ + ","@
}

/// A record: one class, its fields, and a constructor that takes each
/// field by name.
pub open spec fn record_text(p: Package, name: Seq<char>, fs: Seq<Field>) -> Result<Seq<char>, GenError> {
    wrapped(
        "class "@ + name + " {"@,
        joined(Seq::new(fs.len(), |k: int| field_text(p, fs[k])), Seq::empty()),
        "const "@ + name + "({"@ + concat_texts(Seq::new(fs.len(), |k: int| ctor_param_text(fs[k]))) + "});}"@,
    )
}

/// An enum case: its lowerCamelCase identifier.
pub open spec fn enum_case_text(c: EnumCase) -> Seq<char> {
    doc_text(c.docs.contents) + lower_camel_of(c.name@) + ","@
}

/// An enum: a Dart enum with one value per case.
pub open spec fn enum_text(name: Seq<char>, cs: Seq<EnumCase>) -> Seq<char> {
    "enum "@ + name + " {"@ + concat_texts(Seq::new(cs.len(), |k: int| enum_case_text(cs[k]))) + "}"@
}

/// A subtype of a sealed base that holds one immutable `value`.
pub open spec fn payload_class(base: Seq<char>, sub: Seq<char>, ty: Seq<char>) -> Seq<char> {
    "class "@ + base + sub + " implements "@ + base + " { final "@ + ty + " value; const "@ + base + sub
        + "(this.value); }"@
}

/// A subtype of a sealed base with no field.
pub open spec fn empty_class(base: Seq<char>, sub: Seq<char>) -> Seq<char> {
    "class "@ + base + sub + " implements "@ + base + " { const "@ + base + sub + "(); }"@
}

/// A union case: a subtype named after its payload type.
pub open spec fn union_case_text(p: Package, name: Seq<char>, c: UnionCase) -> Result<Seq<char>, GenError> {
    match idiom_name(p, c.ty) {
        Err(e) => Err(e),
        Ok(ty) => Ok(doc_text(c.docs.contents) + payload_class(name, pascal_of(ty), ty)),
    }
}

/// A variant case: a subtype named after the case, with a `value` field
/// only when the case has a payload.
pub open spec fn variant_case_text(p: Package, name: Seq<char>, c: Case) -> Result<Seq<char>, GenError> {
    match c.ty {
        Some(t) => match idiom_name(p, t) {
            Err(e) => Err(e),
            Ok(ty) => Ok(doc_text(c.docs.contents) + payload_class(name, pascal_of(c.name@), ty)),
        },
        None => Ok(doc_text(c.docs.contents) + empty_class(name, pascal_of(c.name@))),
    }
}

/// The opening of a sealed base class.
pub open spec fn sealed_text(name: Seq<char>) -> Seq<char> {
    "sealed class "@ + name + " {}"@
}

/// A union: a sealed base and one subtype per case.
pub open spec fn union_text(p: Package, name: Seq<char>, cs: Seq<UnionCase>) -> Result<Seq<char>, GenError> {
    wrapped(sealed_text(name), joined(Seq::new(cs.len(), |k: int| union_case_text(p, name, cs[k])), Seq::empty()), Seq::empty())
}

/// A variant: a sealed base and one subtype per case.
pub open spec fn variant_text(p: Package, name: Seq<char>, cs: Seq<Case>) -> Result<Seq<char>, GenError> {
    wrapped(sealed_text(name), joined(Seq::new(cs.len(), |k: int| variant_case_text(p, name, cs[k])), Seq::empty()), Seq::empty())
}

/// A flag: a constant whose value is the flag's position.
pub open spec fn flag_text(i: nat, f: Flag) -> Seq<char> {
    doc_text(f.docs.contents) + "static const "@ + f.name@ + " = "@ + decimal(i) + ";"@
}

/// Flags: an integer alias and a holder class of one constant per flag.
pub open spec fn flags_text(name: Seq<char>, fs: Seq<Flag>) -> Seq<char> {
    "typedef "@ + name + " = int; class "@ + name + "Flag {"@
        + concat_texts(Seq::new(fs.len(), |k: int| flag_text(k as nat, fs[k]))) + "}"@
}

/// The definition of a definition, after its documentation: a class, enum
/// or alias for the nominal kinds, nothing for the structural ones, and the
/// target's definition for an alias.
pub open spec fn def_body(p: Package, d: TypeDef, n: nat) -> Result<Seq<char>, GenError>
    decreases n, 1nat,
{
    let name = pascal_of(name_seq(d));
    match d.kind {
        TypeDefKind::Record(fs) => record_text(p, name, fs@),
        TypeDefKind::Enum(cs) => Ok(enum_text(name, cs@)),
        TypeDefKind::Union(cs) => union_text(p, name, cs@),
        TypeDefKind::Variant(cs) => variant_text(p, name, cs@),
        TypeDefKind::Flags(fs) => Ok(flags_text(name, fs@)),
        TypeDefKind::Type(t) => dart_def(p, t, n),
        TypeDefKind::Unknown => Err(GenError::UnknownKind),
        _ => Ok(Seq::empty()),
    }
}

/// The documentation of a definition followed by its definition.
pub open spec fn def_text(p: Package, d: TypeDef, n: nat) -> Result<Seq<char>, GenError>
    decreases n, 2nat,
{
    wrapped(doc_text(d.docs.contents), def_body(p, d, n), Seq::empty())
}

/// The definition a type reference stands for: nothing for a scalar.
pub open spec fn dart_def(p: Package, t: Type, n: nat) -> Result<Seq<char>, GenError>
    decreases n, 0nat,
{
    match t {
        Type::Id(i) => {
            if i >= p.types.len() {
                Err(GenError::DanglingType(i))
            } else if n == 0 {
                Err(GenError::ReferenceCycle)
            } else {
                def_text(p, p.types@[i as int], (n - 1) as nat)
            }
        },
        _ => Ok(Seq::empty()),
    }
}

impl<'a> Parsed<'a> {
    pub(crate) fn field_texts(&self, fs: &Vec<Field>) -> (r: Result<String, GenError>)
        ensures
            text_of(r) == joined(Seq::new(fs@.len(), |k: int| field_text(*self.0, fs@[k])), Seq::empty()),
    {
        let ghost rs = Seq::new(fs@.len(), |k: int| field_text(*self.0, fs@[k]));
        proof { lemma_joined_whole(rs, Seq::empty()); }
        let mut acc = String::new();
        let mut i: usize = 0;
        while i < fs.len()
            invariant
                i <= fs@.len(),
                rs == Seq::new(fs@.len(), |k: int| field_text(*self.0, fs@[k])),
                joined(rs.subrange(0, i as int), Seq::empty()) == Ok::<Seq<char>, GenError>(acc@),
            decreases fs.len() - i,
        {
            let f = &fs[i];
            let ty = match self.type_to_str(&f.ty) {
                Err(e) => {
                    proof { lemma_joined_error(rs, Seq::empty(), i as nat, e); }
                    return Err(e);
                },
                Ok(ty) => ty,
            };
            let mut item = String::new();
            add_docs(&mut item, &f.docs.contents);
            item.append("final ");
            item.append(ty.as_str());
            item.append(" ");
            item.append(f.name.as_str());
            item.append(";");
            assert(item@ =~= doc_text(f.docs.contents) + "final "@ + ty@ + (" "@ + f.name@ + ";"@));
            proof { lemma_joined_push(rs, Seq::empty(), i as nat, acc@, item@); }
            let ghost prev = acc@;
            acc.append(item.as_str());
            assert(acc@ =~= if i == 0 { item@ } else { prev + Seq::<char>::empty() + item@ });
            i = i + 1;
        }
        Ok(acc)
    }

    /// The class of a record named `name` (already in PascalCase).
    pub fn record_definition(&self, name: &String, fs: &Vec<Field>) -> (r: Result<String, GenError>)
        ensures
            text_of(r) == record_text(*self.0, name@, fs@),
    {
        let body = match self.field_texts(fs) {
            Err(e) => return Err(e),
            Ok(body) => body,
        };
        let ghost xs = Seq::new(fs@.len(), |k: int| ctor_param_text(fs@[k]));
        proof { lemma_concat_whole(xs); }
        let mut params = String::new();
        let mut i: usize = 0;
        while i < fs.len()
            invariant
                i <= fs@.len(),
                xs == Seq::new(fs@.len(), |k: int| ctor_param_text(fs@[k])),
                params@ == concat_texts(xs.subrange(0, i as int)),
            decreases fs.len() - i,
        {
            proof { lemma_concat_push(xs, i as nat); }
            params.append("required this.");
            params.append(fs[i].name.as_str());
            params.append(",");
            i = i + 1;
        }
        let mut s = str_of("class ");
        s.append(name.as_str());
        s.append(" {");
        s.append(body.as_str());
        s.append("const ");
        s.append(name.as_str());
        s.append("({");
        s.append(params.as_str());
        s.append("});}");
        assert(s@ =~= "class "@ + name@ + " {"@ + body@ + ("const "@ + name@ + "({"@ + params@ + "});}"@));
        Ok(s)
    }

    /// The enum named `name` (already in PascalCase).
    pub fn enum_definition(name: &String, cs: &Vec<EnumCase>) -> (r: String)
        ensures
            r@ == enum_text(name@, cs@),
    {
        let ghost xs = Seq::new(cs@.len(), |k: int| enum_case_text(cs@[k]));
        proof { lemma_concat_whole(xs); }
        let mut s = str_of("enum ");
        s.append(name.as_str());
        s.append(" {");
        let ghost head = s@;
        let mut i: usize = 0;
        while i < cs.len()
            invariant
                i <= cs@.len(),
                xs == Seq::new(cs@.len(), |k: int| enum_case_text(cs@[k])),
                s@ == head + concat_texts(xs.subrange(0, i as int)),
            decreases cs.len() - i,
        {
            proof { lemma_concat_push(xs, i as nat); }
            let c = &cs[i];
            add_docs(&mut s, &c.docs.contents);
            let id = lower_camel_case(c.name.as_str());
            s.append(id.as_str());
            s.append(",");
            assert(s@ =~= head + concat_texts(xs.subrange(0, i + 1 as int)));
            i = i + 1;
        }
        s.append("}");
        s
    }

    /// The integer alias and constant holder of flags named `name`
    /// (already in PascalCase).
    pub fn flags_definition(name: &String, fs: &Vec<Flag>) -> (r: String)
        ensures
            r@ == flags_text(name@, fs@),
    {
        let ghost xs = Seq::new(fs@.len(), |k: int| flag_text(k as nat, fs@[k]));
        proof { lemma_concat_whole(xs); }
        let mut s = str_of("typedef ");
        s.append(name.as_str());
        s.append(" = int; class ");
        s.append(name.as_str());
        s.append("Flag {");
        let ghost head = s@;
        let mut i: usize = 0;
        while i < fs.len()
            invariant
                i <= fs@.len(),
                xs == Seq::new(fs@.len(), |k: int| flag_text(k as nat, fs@[k])),
                s@ == head + concat_texts(xs.subrange(0, i as int)),
            decreases fs.len() - i,
        {
            proof { lemma_concat_push(xs, i as nat); }
            let f = &fs[i];
            add_docs(&mut s, &f.docs.contents);
            s.append("static const ");
            s.append(f.name.as_str());
            s.append(" = ");
            push_decimal(&mut s, i);
            s.append(";");
            assert(s@ =~= head + concat_texts(xs.subrange(0, i + 1 as int)));
            i = i + 1;
        }
        s.append("}");
        s
    }

    pub(crate) fn payload_class_str(base: &String, sub: &String, ty: &String) -> (r: String)
        ensures
            r@ == payload_class(base@, sub@, ty@),
    {
        let mut s = str_of("class ");
        s.append(base.as_str());
        s.append(sub.as_str());
        s.append(" implements ");
        s.append(base.as_str());
        s.append(" { final ");
        s.append(ty.as_str());
        s.append(" value; const ");
        s.append(base.as_str());
        s.append(sub.as_str());
        s.append("(this.value); }");
        assert(s@ =~= payload_class(base@, sub@, ty@));
        s
    }

    pub(crate) fn empty_class_str(base: &String, sub: &String) -> (r: String)
        ensures
            r@ == empty_class(base@, sub@),
    {
        let mut s = str_of("class ");
        s.append(base.as_str());
        s.append(sub.as_str());
        s.append(" implements ");
        s.append(base.as_str());
        s.append(" { const ");
        s.append(base.as_str());
        s.append(sub.as_str());
        s.append("(); }");
        assert(s@ =~= empty_class(base@, sub@));
        s
    }

    pub(crate) fn sealed_str(name: &String) -> (r: String)
        ensures
            r@ == sealed_text(name@),
    {
        let mut s = str_of("sealed class ");
        s.append(name.as_str());
        s.append(" {}");
        s
    }

    /// The sealed class hierarchy of a union named `name` (already in
    /// PascalCase).
    pub fn union_definition(&self, name: &String, cs: &Vec<UnionCase>) -> (r: Result<String, GenError>)
        ensures
            text_of(r) == union_text(*self.0, name@, cs@),
    {
        let ghost rs = Seq::new(cs@.len(), |k: int| union_case_text(*self.0, name@, cs@[k]));
        proof { lemma_joined_whole(rs, Seq::empty()); }
        let mut acc = String::new();
        let mut i: usize = 0;
        while i < cs.len()
            invariant
                i <= cs@.len(),
                rs == Seq::new(cs@.len(), |k: int| union_case_text(*self.0, name@, cs@[k])),
                joined(rs.subrange(0, i as int), Seq::empty()) == Ok::<Seq<char>, GenError>(acc@),
            decreases cs.len() - i,
        {
            let c = &cs[i];
            let ty = match self.type_to_str(&c.ty) {
                Err(e) => {
                    proof { lemma_joined_error(rs, Seq::empty(), i as nat, e); }
                    return Err(e);
                },
                Ok(ty) => ty,
            };
            let sub = pascal_case(ty.as_str());
            let mut item = String::new();
            add_docs(&mut item, &c.docs.contents);
            let class = Self::payload_class_str(name, &sub, &ty);
            item.append(class.as_str());
            proof { lemma_joined_push(rs, Seq::empty(), i as nat, acc@, item@); }
            let ghost prev = acc@;
            acc.append(item.as_str());
            assert(acc@ =~= if i == 0 { item@ } else { prev + Seq::<char>::empty() + item@ });
            i = i + 1;
        }
        let mut s = Self::sealed_str(name);
        s.append(acc.as_str());
        assert(s@ =~= sealed_text(name@) + acc@ + Seq::<char>::empty());
        Ok(s)
    }

    /// The sealed class hierarchy of a variant named `name` (already in
    /// PascalCase).
    pub fn variant_definition(&self, name: &String, cs: &Vec<Case>) -> (r: Result<String, GenError>)
        ensures
            text_of(r) == variant_text(*self.0, name@, cs@),
    {
        let ghost rs = Seq::new(cs@.len(), |k: int| variant_case_text(*self.0, name@, cs@[k]));
        proof { lemma_joined_whole(rs, Seq::empty()); }
        let mut acc = String::new();
        let mut i: usize = 0;
        while i < cs.len()
            invariant
                i <= cs@.len(),
                rs == Seq::new(cs@.len(), |k: int| variant_case_text(*self.0, name@, cs@[k])),
                joined(rs.subrange(0, i as int), Seq::empty()) == Ok::<Seq<char>, GenError>(acc@),
            decreases cs.len() - i,
        {
            let c = &cs[i];
            let sub = pascal_case(c.name.as_str());
            let mut item = String::new();
            add_docs(&mut item, &c.docs.contents);
            match &c.ty {
                Some(t) => {
                    let ty = match self.type_to_str(t) {
                        Err(e) => {
                            proof { lemma_joined_error(rs, Seq::empty(), i as nat, e); }
                            return Err(e);
                        },
                        Ok(ty) => ty,
                    };
                    let class = Self::payload_class_str(name, &sub, &ty);
                    item.append(class.as_str());
                },
                None => {
                    let class = Self::empty_class_str(name, &sub);
                    item.append(class.as_str());
                },
            }
            proof { lemma_joined_push(rs, Seq::empty(), i as nat, acc@, item@); }
            let ghost prev = acc@;
            acc.append(item.as_str());
            assert(acc@ =~= if i == 0 { item@ } else { prev + Seq::<char>::empty() + item@ });
            i = i + 1;
        }
        let mut s = Self::sealed_str(name);
        s.append(acc.as_str());
        assert(s@ =~= sealed_text(name@) + acc@ + Seq::<char>::empty());
        Ok(s)
    }

    pub(crate) fn def_body_steps(&self, d: &TypeDef, n: usize) -> (r: Result<String, GenError>)
        ensures
            text_of(r) == def_body(*self.0, *d, n as nat),
        decreases n, 1nat,
    {
        let name = self.pascal_name(d);
        match &d.kind {
            TypeDefKind::Record(fs) => self.record_definition(&name, fs),
            TypeDefKind::Enum(cs) => Ok(Self::enum_definition(&name, cs)),
            TypeDefKind::Union(cs) => self.union_definition(&name, cs),
            TypeDefKind::Variant(cs) => self.variant_definition(&name, cs),
            TypeDefKind::Flags(fs) => Ok(Self::flags_definition(&name, fs)),
            TypeDefKind::Type(t) => self.def_steps(t, n),
            TypeDefKind::Unknown => Err(GenError::UnknownKind),
            _ => Ok(String::new()),
        }
    }

    pub(crate) fn def_text_steps(&self, d: &TypeDef, n: usize) -> (r: Result<String, GenError>)
        ensures
            text_of(r) == def_text(*self.0, *d, n as nat),
        decreases n, 2nat,
    {
        let mut s = String::new();
        add_docs(&mut s, &d.docs.contents);
        match self.def_body_steps(d, n) {
            Err(e) => Err(e),
            Ok(b) => {
                let ghost head = s@;
                s.append(b.as_str());
                assert(s@ =~= head + b@ + Seq::<char>::empty());
                Ok(s)
            },
        }
    }

    pub(crate) fn def_steps(&self, ty: &Type, n: usize) -> (r: Result<String, GenError>)
        ensures
            text_of(r) == dart_def(*self.0, *ty, n as nat),
        decreases n, 0nat,
    {
        match ty {
            Type::Id(i) => {
                if *i >= self.0.types.len() {
                    Err(GenError::DanglingType(*i))
                } else if n == 0 {
                    Err(GenError::ReferenceCycle)
                } else {
                    self.def_text_steps(&self.0.types[*i], n - 1)
                }
            },
            _ => Ok(String::new()),
        }
    }

    /// The Dart definition a type stands for: empty for a scalar, else the
    /// definition of the referenced type.
    pub fn type_to_dart_definition(&self, ty: &Type) -> (r: Result<String, GenError>)
        ensures
            text_of(r) == dart_def(*self.0, *ty, budget(*self.0)),
    {
        self.def_steps(ty, self.0.types.len())
    }

    /// The documentation and Dart definition of a type definition.
    pub fn type_def_to_definition(&self, ty: &TypeDef) -> (r: Result<String, GenError>)
        ensures
            text_of(r) == def_text(*self.0, *ty, budget(*self.0)),
    {
        self.def_text_steps(ty, self.0.types.len())
    }
}

} // verus!
