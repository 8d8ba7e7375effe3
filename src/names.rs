//! Type names: the marshalling name and the idiomatic Dart name of every
//! type reference, resolving references through the package's type arena.

use vstd::prelude::*;
use crate::generate::{GenError, Parsed, text_of, wrapped, str_of, wrap};
use crate::model::{Type, TypeDef, TypeDefKind, Package, name_seq};
use crate::naming::{pascal_of, pascal_case};

verus! {

/// Marshalling name of a scalar type.
pub open spec fn scalar_ffi(t: Type) -> Seq<char> {
    match t {
        Type::Bool => "Bool"@,
        Type::String => "String"@,
        Type::Char => "Uint32"@,
        Type::Float32 => "Float"@,
        Type::Float64 => "Double"@,
        Type::S8 => "Int8"@,
        Type::S16 => "Int16"@,
        Type::S32 => "Int32"@,
        Type::S64 => "Int64"@,
        Type::U8 => "Uint8"@,
        Type::U16 => "Uint16"@,
        Type::U32 => "Uint32"@,
        Type::U64 => "Uint64"@,
        Type::Id(_) => Seq::empty(),
    }
}

/// Idiomatic Dart name of a scalar type. Dart has one integer and one float
/// type, so the declared width is kept in a comment.
pub open spec fn scalar_idiom(t: Type) -> Seq<char> {
    match t {
        Type::Bool => "bool"@,
        Type::String => "String"@,
        Type::Char => "int /* Char */"@,
        Type::Float32 => "double /* Float32 */"@,
        Type::Float64 => "double /* Float64 */"@,
        Type::S8 => "int /* S8 */"@,
        Type::S16 => "int /* S16 */"@,
        Type::S32 => "int /* S32 */"@,
        Type::S64 => "int /* S64 */"@,
        Type::U8 => "int /* U8 */"@,
        Type::U16 => "int /* U16 */"@,
        Type::U32 => "int /* U32 */"@,
        Type::U64 => "int /* U64 */"@,
        Type::Id(_) => Seq::empty(),
    }
}

/// Idiomatic name of a type reference, with `n` reference steps left.
pub open spec fn idiom_of(p: Package, t: Type, n: nat) -> Result<Seq<char>, GenError>
    decreases n, 0nat, 0nat,
{
    match t {
        Type::Id(i) => {
            if i >= p.types.len() {
                Err(GenError::DanglingType(i))
            } else if n == 0 {
                Err(GenError::ReferenceCycle)
            } else {
                def_name(p, p.types@[i as int], (n - 1) as nat)
            }
        },
        _ => Ok(scalar_idiom(t)),
    }
}

/// Idiomatic name of an optional type; `void` when absent.
pub open spec fn opt_idiom(p: Package, t: Option<Type>, n: nat) -> Result<Seq<char>, GenError>
    decreases n, 1nat, 0nat,
{
    match t {
        Some(t) => idiom_of(p, t, n),
        None => Ok("void"@),
    }
}

/// Idiomatic names of `ts`, joined by `", "`.
pub open spec fn idiom_list(p: Package, ts: Seq<Type>, n: nat) -> Result<Seq<char>, GenError>
    decreases n, 1nat, ts.len(),
{
    if ts.len() == 0 {
        Ok(Seq::empty())
    } else {
        match idiom_list(p, ts.drop_last(), n) {
            Err(e) => Err(e),
            Ok(prev) => match idiom_of(p, ts.last(), n) {
                Err(e) => Err(e),
                Ok(x) => Ok(if ts.len() == 1 { x } else { prev + ", "@ + x }),
            },
        }
    }
}

/// Idiomatic name of a definition: the PascalCase name of a nominal kind,
/// the structural spelling of the others.
pub open spec fn def_name(p: Package, d: TypeDef, n: nat) -> Result<Seq<char>, GenError>
    decreases n, 2nat, 0nat,
{
    match d.kind {
        TypeDefKind::Record(_) => Ok(pascal_of(name_seq(d))),
        TypeDefKind::Enum(_) => Ok(pascal_of(name_seq(d))),
        TypeDefKind::Union(_) => Ok(pascal_of(name_seq(d))),
        TypeDefKind::Variant(_) => Ok(pascal_of(name_seq(d))),
        TypeDefKind::Flags(_) => Ok(pascal_of(name_seq(d))),
        TypeDefKind::Tuple(ts) => wrapped("("@, idiom_list(p, ts@, n), ")"@),
        TypeDefKind::Option(t) => wrapped("Option<"@, idiom_of(p, t, n), ">"@),
        TypeDefKind::Result { ok, err } => match opt_idiom(p, ok, n) {
            Err(e) => Err(e),
            Ok(a) => wrapped("Result<"@ + a + ", "@, opt_idiom(p, err, n), ">"@),
        },
        TypeDefKind::List(t) => wrapped("List<"@, idiom_of(p, t, n), ">"@),
        TypeDefKind::Future(t) => wrapped("Future<"@, opt_idiom(p, t, n), ">"@),
        TypeDefKind::Stream { element, end } => wrapped("Stream<"@, opt_idiom(p, element, n), ">"@),
        TypeDefKind::Type(t) => idiom_of(p, t, n),
        TypeDefKind::Unknown => Err(GenError::UnknownKind),
    }
}

/// The depth budget for a walk over `p`.
pub open spec fn budget(p: Package) -> nat {
    p.types.len() as nat
}

/// Idiomatic name of a type reference.
pub open spec fn idiom_name(p: Package, t: Type) -> Result<Seq<char>, GenError> {
    idiom_of(p, t, budget(p))
}

/// Marshalling name of a type reference, with `n` reference steps left: a
/// definition's own name, the element names of an unnamed tuple, else the
/// idiomatic name.
pub open spec fn ffi_of(p: Package, t: Type, n: nat) -> Result<Seq<char>, GenError>
    decreases n, 0nat,
{
    match t {
        Type::Id(i) => {
            if i >= p.types.len() {
                Err(GenError::DanglingType(i))
            } else if n == 0 {
                Err(GenError::ReferenceCycle)
            } else {
                let d = p.types@[i as int];
                match d.name {
                    Some(name) => Ok(name@),
                    None => match d.kind {
                        TypeDefKind::Tuple(ts) => wrapped("("@, ffi_list(p, ts@, (n - 1) as nat), ")"@),
                        _ => def_name(p, d, (n - 1) as nat),
                    },
                }
            }
        },
        _ => Ok(scalar_ffi(t)),
    }
}

/// Marshalling names of `ts`, joined by `", "`.
pub open spec fn ffi_list(p: Package, ts: Seq<Type>, n: nat) -> Result<Seq<char>, GenError>
    decreases n, ts.len(),
{
    if ts.len() == 0 {
        Ok(Seq::empty())
    } else {
        match ffi_list(p, ts.drop_last(), n) {
            Err(e) => Err(e),
            Ok(prev) => match ffi_of(p, ts.last(), n) {
                Err(e) => Err(e),
                Ok(x) => Ok(if ts.len() == 1 { x } else { prev + ", "@ + x }),
            },
        }
    }
}

/// Marshalling name of a type reference.
pub open spec fn ffi_name(p: Package, t: Type) -> Result<Seq<char>, GenError> {
    ffi_of(p, t, budget(p))
}

/// An element that fails makes the whole list fail with its error, once
/// the elements before it have succeeded.
pub(crate) proof fn lemma_list_error_spreads(p: Package, ts: Seq<Type>, n: nat, i: nat, e: GenError)
    requires
        i < ts.len(),
        idiom_list(p, ts.subrange(0, i as int), n) is Ok,
        idiom_of(p, ts[i as int], n) == Err::<Seq<char>, GenError>(e),
    ensures
        idiom_list(p, ts, n) == Err::<Seq<char>, GenError>(e),
{
    assert(ts.subrange(0, i + 1 as int).drop_last() =~= ts.subrange(0, i as int));
    lemma_list_prefix_error(p, ts, n, i + 1, e);
}

pub(crate) proof fn lemma_list_prefix_error(p: Package, ts: Seq<Type>, n: nat, k: nat, e: GenError)
    requires
        k <= ts.len(),
        idiom_list(p, ts.subrange(0, k as int), n) == Err::<Seq<char>, GenError>(e),
    ensures
        idiom_list(p, ts, n) == Err::<Seq<char>, GenError>(e),
    decreases ts.len() - k,
{
    if k == ts.len() {
        assert(ts.subrange(0, k as int) =~= ts);
    } else {
        assert(ts.subrange(0, k + 1 as int).drop_last() =~= ts.subrange(0, k as int));
        lemma_list_prefix_error(p, ts, n, k + 1, e);
    }
}

pub(crate) proof fn lemma_ffi_list_error_spreads(p: Package, ts: Seq<Type>, n: nat, i: nat, e: GenError)
    requires
        i < ts.len(),
        ffi_list(p, ts.subrange(0, i as int), n) is Ok,
        ffi_of(p, ts[i as int], n) == Err::<Seq<char>, GenError>(e),
    ensures
        ffi_list(p, ts, n) == Err::<Seq<char>, GenError>(e),
{
    assert(ts.subrange(0, i + 1 as int).drop_last() =~= ts.subrange(0, i as int));
    lemma_ffi_list_prefix_error(p, ts, n, i + 1, e);
}

pub(crate) proof fn lemma_ffi_list_prefix_error(p: Package, ts: Seq<Type>, n: nat, k: nat, e: GenError)
    requires
        k <= ts.len(),
        ffi_list(p, ts.subrange(0, k as int), n) == Err::<Seq<char>, GenError>(e),
    ensures
        ffi_list(p, ts, n) == Err::<Seq<char>, GenError>(e),
    decreases ts.len() - k,
{
    if k == ts.len() {
        assert(ts.subrange(0, k as int) =~= ts);
    } else {
        assert(ts.subrange(0, k + 1 as int).drop_last() =~= ts.subrange(0, k as int));
        lemma_ffi_list_prefix_error(p, ts, n, k + 1, e);
    }
}

fn scalar_ffi_str(t: &Type) -> (r: &'static str)
    requires
        !t.is_id(),
    ensures
        r@ == scalar_ffi(*t),
{
    match t {
        Type::Bool => "Bool",
        Type::String => "String",
        Type::Char => "Uint32",
        Type::Float32 => "Float",
        Type::Float64 => "Double",
        Type::S8 => "Int8",
        Type::S16 => "Int16",
        Type::S32 => "Int32",
        Type::S64 => "Int64",
        Type::U8 => "Uint8",
        Type::U16 => "Uint16",
        Type::U32 => "Uint32",
        Type::U64 => "Uint64",
        Type::Id(_) => "",
    }
}

fn scalar_idiom_str(t: &Type) -> (r: &'static str)
    requires
        !t.is_id(),
    ensures
        r@ == scalar_idiom(*t),
{
    match t {
        Type::Bool => "bool",
        Type::String => "String",
        Type::Char => "int /* Char */",
        Type::Float32 => "double /* Float32 */",
        Type::Float64 => "double /* Float64 */",
        Type::S8 => "int /* S8 */",
        Type::S16 => "int /* S16 */",
        Type::S32 => "int /* S32 */",
        Type::S64 => "int /* S64 */",
        Type::U8 => "int /* U8 */",
        Type::U16 => "int /* U16 */",
        Type::U32 => "int /* U32 */",
        Type::U64 => "int /* U64 */",
        Type::Id(_) => "",
    }
}

impl<'a> Parsed<'a> {
    pub(crate) fn str_steps(&self, ty: &Type, n: usize) -> (r: Result<String, GenError>)
        ensures
            text_of(r) == idiom_of(*self.0, *ty, n as nat),
        decreases n, 0nat, 0nat,
    {
        match ty {
            Type::Id(i) => {
                if *i >= self.0.types.len() {
                    Err(GenError::DanglingType(*i))
                } else if n == 0 {
                    Err(GenError::ReferenceCycle)
                } else {
                    self.name_steps(&self.0.types[*i], n - 1)
                }
            },
            _ => Ok(str_of(scalar_idiom_str(ty))),
        }
    }

    pub(crate) fn opt_str_steps(&self, ty: &Option<Type>, n: usize) -> (r: Result<String, GenError>)
        ensures
            text_of(r) == opt_idiom(*self.0, *ty, n as nat),
        decreases n, 1nat, 0nat,
    {
        match ty {
            Some(t) => self.str_steps(t, n),
            None => Ok(str_of("void")),
        }
    }

    pub(crate) fn str_list_steps(&self, ts: &Vec<Type>, n: usize) -> (r: Result<String, GenError>)
        ensures
            text_of(r) == idiom_list(*self.0, ts@, n as nat),
        decreases n, 1nat, 1nat,
    {
        let mut acc = String::new();
        let mut i: usize = 0;
        assert(ts@.subrange(0, 0) =~= Seq::<Type>::empty());
        while i < ts.len()
            invariant
                i <= ts@.len(),
                idiom_list(*self.0, ts@.subrange(0, i as int), n as nat) == Ok::<Seq<char>, GenError>(acc@),
            decreases ts.len() - i,
        {
            let x = self.str_steps(&ts[i], n);
            let ghost pre = ts@.subrange(0, i + 1);
            assert(pre.drop_last() =~= ts@.subrange(0, i as int));
            match x {
                Err(e) => {
                    proof { lemma_list_error_spreads(*self.0, ts@, n as nat, i as nat, e); }
                    return Err(e);
                },
                Ok(x) => {
                    if i > 0 {
                        acc.append(", ");
                    }
                    acc.append(x.as_str());
                },
            }
            i = i + 1;
        }
        assert(ts@.subrange(0, ts@.len() as int) =~= ts@);
        Ok(acc)
    }

    pub(crate) fn name_steps(&self, d: &TypeDef, n: usize) -> (r: Result<String, GenError>)
        ensures
            text_of(r) == def_name(*self.0, *d, n as nat),
        decreases n, 2nat, 0nat,
    {
        match &d.kind {
            TypeDefKind::Record(_) | TypeDefKind::Enum(_) | TypeDefKind::Union(_)
            | TypeDefKind::Variant(_) | TypeDefKind::Flags(_) => Ok(self.pascal_name(d)),
            TypeDefKind::Tuple(ts) => wrap("(", self.str_list_steps(ts, n), ")"),
            TypeDefKind::Option(t) => wrap("Option<", self.str_steps(t, n), ">"),
            TypeDefKind::Result { ok, err } => match self.opt_str_steps(ok, n) {
                Err(e) => Err(e),
                Ok(a) => {
                    let mut pre = str_of("Result<");
                    pre.append(a.as_str());
                    pre.append(", ");
                    wrap(pre.as_str(), self.opt_str_steps(err, n), ">")
                },
            },
            TypeDefKind::List(t) => wrap("List<", self.str_steps(t, n), ">"),
            TypeDefKind::Future(t) => wrap("Future<", self.opt_str_steps(t, n), ">"),
            TypeDefKind::Stream { element, end: _ } => wrap("Stream<", self.opt_str_steps(element, n), ">"),
            TypeDefKind::Type(t) => self.str_steps(t, n),
            TypeDefKind::Unknown => Err(GenError::UnknownKind),
        }
    }

    pub(crate) fn ffi_steps(&self, ty: &Type, n: usize) -> (r: Result<String, GenError>)
        ensures
            text_of(r) == ffi_of(*self.0, *ty, n as nat),
        decreases n, 0nat,
    {
        match ty {
            Type::Id(i) => {
                if *i >= self.0.types.len() {
                    Err(GenError::DanglingType(*i))
                } else if n == 0 {
                    Err(GenError::ReferenceCycle)
                } else {
                    let d = &self.0.types[*i];
                    match &d.name {
                        Some(name) => Ok(name.clone()),
                        None => match &d.kind {
                            TypeDefKind::Tuple(ts) => wrap("(", self.ffi_list_steps(ts, n - 1), ")"),
                            _ => self.name_steps(d, n - 1),
                        },
                    }
                }
            },
            _ => Ok(str_of(scalar_ffi_str(ty))),
        }
    }

    pub(crate) fn ffi_list_steps(&self, ts: &Vec<Type>, n: usize) -> (r: Result<String, GenError>)
        ensures
            text_of(r) == ffi_list(*self.0, ts@, n as nat),
        decreases n, 1nat,
    {
        let mut acc = String::new();
        let mut i: usize = 0;
        assert(ts@.subrange(0, 0) =~= Seq::<Type>::empty());
        while i < ts.len()
            invariant
                i <= ts@.len(),
                ffi_list(*self.0, ts@.subrange(0, i as int), n as nat) == Ok::<Seq<char>, GenError>(acc@),
            decreases ts.len() - i,
        {
            let x = self.ffi_steps(&ts[i], n);
            assert(ts@.subrange(0, i + 1).drop_last() =~= ts@.subrange(0, i as int));
            match x {
                Err(e) => {
                    proof { lemma_ffi_list_error_spreads(*self.0, ts@, n as nat, i as nat, e); }
                    return Err(e);
                },
                Ok(x) => {
                    if i > 0 {
                        acc.append(", ");
                    }
                    acc.append(x.as_str());
                },
            }
            i = i + 1;
        }
        assert(ts@.subrange(0, ts@.len() as int) =~= ts@);
        Ok(acc)
    }

    /// The marshalling name of a type: fixed per scalar, a definition's own
    /// name, or the element names of an unnamed tuple.
    pub fn type_to_ffi(&self, ty: &Type) -> (r: Result<String, GenError>)
        ensures
            text_of(r) == ffi_name(*self.0, *ty),
    {
        self.ffi_steps(ty, self.0.types.len())
    }

    /// The idiomatic Dart name of a type.
    pub fn type_to_str(&self, ty: &Type) -> (r: Result<String, GenError>)
        ensures
            text_of(r) == idiom_name(*self.0, *ty),
    {
        self.str_steps(ty, self.0.types.len())
    }

    /// The idiomatic Dart name of a definition.
    pub fn type_def_to_name(&self, ty: &TypeDef) -> (r: Result<String, GenError>)
        ensures
            text_of(r) == def_name(*self.0, *ty, budget(*self.0)),
    {
        self.name_steps(ty, self.0.types.len())
    }

    pub(crate) fn pascal_name(&self, d: &TypeDef) -> (r: String)
        ensures
            r@ == pascal_of(name_seq(*d)),
    {
        match &d.name {
            Some(name) => pascal_case(name.as_str()),
            None => {
                proof { reveal_strlit(""); }
                assert(""@ =~= Seq::<char>::empty());
                pascal_case("")
            },
        }
    }
}

} // verus!
