//! Functions and interfaces: signatures in their three forms, interface
//! classes, and the output for a whole package.

use vstd::prelude::*;
use crate::definitions::def_text;
use crate::generate::{
    FuncKind, GenError, Parsed, text_of, wrapped, joined, lemma_joined_error, lemma_joined_push,
    lemma_joined_whole, str_of,
};
use crate::model::{Type, TypeDefKind, Package, Function, Results, Interface};
use crate::names::{budget, idiom_name, ffi_name, scalar_ffi, scalar_idiom};
use crate::naming::{pascal_of, pascal_case};
use crate::text::{doc_text, add_docs};

verus! {

/// A parameter or named result: `Type name`.
pub open spec fn param_text(p: Package, param: (String, Type)) -> Result<Seq<char>, GenError> {
    wrapped(Seq::empty(), idiom_name(p, param.1), " "@ + param.0@)
}

/// A parameter list, in declaration order, joined by `,`.
pub open spec fn params_text(p: Package, ps: Seq<(String, Type)>) -> Result<Seq<char>, GenError> {
    joined(Seq::new(ps.len(), |k: int| param_text(p, ps[k])), ","@)
}

/// The result type of a function; `void` when it would be empty.
pub open spec fn results_text(p: Package, r: Results) -> Result<Seq<char>, GenError> {
    let t = match r {
        Results::Anon(t) => idiom_name(p, t),
        Results::Named(list) => params_text(p, list@),
    };
    match t {
        Err(e) => Err(e),
        Ok(x) => Ok(if x.len() == 0 { "void"@ } else { x }),
    }
}

/// The texts of `xs` joined by `sep`.
pub open spec fn sep_texts(xs: Seq<Seq<char>>, sep: Seq<char>) -> Seq<char>
    decreases xs.len(),
{
    if xs.len() == 0 {
        Seq::empty()
    } else if xs.len() == 1 {
        xs[0]
    } else {
        sep_texts(xs.drop_last(), sep) + sep + xs.last()
    }
}

/// The parameter names of `ps`, in order, joined by `", "`.
pub open spec fn arg_names(ps: Seq<(String, Type)>) -> Seq<char> {
    sep_texts(Seq::new(ps.len(), |k: int| ps[k].0@), ", "@)
}

/// A function with parameter list `ps` and result type `rs`, in the form
/// that `kind` asks for.
pub open spec fn function_form(f: Function, kind: FuncKind, ps: Seq<char>, rs: Seq<char>) -> Seq<char> {
    let name = f.name@;
    match kind {
        FuncKind::Field => "final "@ + rs + " Function("@ + ps + ") "@ + name + ";"@,
        FuncKind::Method => rs + " "@ + name + "("@ + ps + ");"@,
        FuncKind::MethodCall => "late final _"@ + name + " = lookup('"@ + name + "');"@ + rs + " "@ + name + "("@
            + ps + ") {"@ + "return _"@ + name + "("@ + arg_names(f.params@) + ");"@ + "}"@,
    }
}

/// A function's documentation followed by its emitted form.
pub open spec fn function_text(p: Package, f: Function, kind: FuncKind) -> Result<Seq<char>, GenError> {
    match params_text(p, f.params@) {
        Err(e) => Err(e),
        Ok(ps) => match results_text(p, f.results) {
            Err(e) => Err(e),
            Ok(rs) => Ok(doc_text(f.docs.contents) + function_form(f, kind, ps, rs)),
        },
    }
}

/// An interface: one class named after it, one signature per function.
pub open spec fn interface_text(p: Package, name: Seq<char>, i: Interface) -> Result<Seq<char>, GenError> {
    wrapped(
        doc_text(i.docs.contents) + "class "@ + pascal_of(name) + " {"@,
        joined(Seq::new(i.functions@.len(), |k: int| function_text(p, i.functions@[k], FuncKind::Method)), Seq::empty()),
        "}"@,
    )
}

/// Every interface of the package, in order.
pub open spec fn interfaces_text(p: Package) -> Result<Seq<char>, GenError> {
    joined(Seq::new(p.interfaces@.len(), |k: int| interface_text(p, p.interfaces@[k].name@, p.interfaces@[k])), Seq::empty())
}

/// The definitions of every type of the package, in arena order.
pub open spec fn definitions_text(p: Package) -> Result<Seq<char>, GenError> {
    joined(Seq::new(p.types@.len(), |k: int| def_text(p, p.types@[k], budget(p))), Seq::empty())
}

/// The whole output for a package: its type definitions, then its
/// interfaces.
pub open spec fn package_text(p: Package) -> Result<Seq<char>, GenError> {
    match definitions_text(p) {
        Err(e) => Err(e),
        Ok(defs) => wrapped(defs, interfaces_text(p), Seq::empty()),
    }
}

/// What appending `t` to `s0` leaves in `s1`: the text on success, nothing
/// on failure.
pub open spec fn appended(s0: Seq<char>, s1: Seq<char>, r: Result<(), GenError>, t: Result<Seq<char>, GenError>) -> bool {
    match t {
        Ok(x) => r is Ok && s1 == s0 + x,
        Err(e) => r == Err::<(), GenError>(e) && s1 == s0,
    }
}

impl<'a> Parsed<'a> {
    pub(crate) fn params_str(&self, ps: &Vec<(String, Type)>) -> (r: Result<String, GenError>)
        ensures
            text_of(r) == params_text(*self.0, ps@),
    {
        let ghost rs = Seq::new(ps@.len(), |k: int| param_text(*self.0, ps@[k]));
        proof { lemma_joined_whole(rs, ","@); }
        let mut acc = String::new();
        let mut i: usize = 0;
        while i < ps.len()
            invariant
                i <= ps@.len(),
                rs == Seq::new(ps@.len(), |k: int| param_text(*self.0, ps@[k])),
                joined(rs.subrange(0, i as int), ","@) == Ok::<Seq<char>, GenError>(acc@),
            decreases ps.len() - i,
        {
            let param = &ps[i];
            let ty = match self.type_to_str(&param.1) {
                Err(e) => {
                    proof { lemma_joined_error(rs, ","@, i as nat, e); }
                    return Err(e);
                },
                Ok(ty) => ty,
            };
            let mut item = ty;
            item.append(" ");
            item.append(param.0.as_str());
            assert(item@ =~= Seq::<char>::empty() + ty@ + (" "@ + param.0@));
            proof { lemma_joined_push(rs, ","@, i as nat, acc@, item@); }
            let ghost prev = acc@;
            if i > 0 {
                acc.append(",");
            }
            acc.append(item.as_str());
            assert(acc@ =~= if i == 0 { item@ } else { prev + ","@ + item@ });
            i = i + 1;
        }
        Ok(acc)
    }

    pub(crate) fn results_str(&self, r: &Results) -> (o: Result<String, GenError>)
        ensures
            text_of(o) == results_text(*self.0, *r),
    {
        let t = match r {
            Results::Anon(t) => self.type_to_str(t),
            Results::Named(list) => self.params_str(list),
        };
        match t {
            Err(e) => Err(e),
            Ok(x) => {
                if x.as_str().unicode_len() == 0 {
                    Ok(str_of("void"))
                } else {
                    Ok(x)
                }
            },
        }
    }

    pub(crate) fn arg_names_str(ps: &Vec<(String, Type)>) -> (r: String)
        ensures
            r@ == arg_names(ps@),
    {
        let ghost xs = Seq::new(ps@.len(), |k: int| ps@[k].0@);
        let mut acc = String::new();
        let mut i: usize = 0;
        assert(xs.subrange(0, 0) =~= Seq::<Seq<char>>::empty());
        while i < ps.len()
            invariant
                i <= ps@.len(),
                xs == Seq::new(ps@.len(), |k: int| ps@[k].0@),
                acc@ == sep_texts(xs.subrange(0, i as int), ", "@),
            decreases ps.len() - i,
        {
            assert(xs.subrange(0, i + 1).drop_last() =~= xs.subrange(0, i as int));
            if i > 0 {
                acc.append(", ");
            }
            acc.append(ps[i].0.as_str());
            assert(acc@ =~= sep_texts(xs.subrange(0, i + 1), ", "@));
            i = i + 1;
        }
        assert(xs.subrange(0, ps@.len() as int) =~= xs);
        acc
    }

    pub(crate) fn call_form_str(f: &Function, params: &String, results: &String) -> (r: String)
        ensures
            r@ == function_form(*f, FuncKind::MethodCall, params@, results@),
    {
        let name = f.name.as_str();
        let mut s = str_of("late final _");
        s.append(name);
        s.append(" = lookup('");
        s.append(name);
        s.append("');");
        s.append(results.as_str());
        s.append(" ");
        s.append(name);
        s.append("(");
        s.append(params.as_str());
        s.append(") {");
        s.append("return _");
        s.append(name);
        s.append("(");
        let args = Self::arg_names_str(&f.params);
        s.append(args.as_str());
        s.append(");");
        s.append("}");
        assert(s@ =~= function_form(*f, FuncKind::MethodCall, params@, results@));
        s
    }

    pub(crate) fn form_str(f: &Function, kind: FuncKind, params: &String, results: &String) -> (r: String)
        ensures
            r@ == function_form(*f, kind, params@, results@),
    {
        let name = f.name.as_str();
        match kind {
            FuncKind::Field => {
                let mut s = str_of("final ");
                s.append(results.as_str());
                s.append(" Function(");
                s.append(params.as_str());
                s.append(") ");
                s.append(name);
                s.append(";");
                assert(s@ =~= function_form(*f, kind, params@, results@));
                s
            },
            FuncKind::Method => {
                let mut s = str_of(results.as_str());
                s.append(" ");
                s.append(name);
                s.append("(");
                s.append(params.as_str());
                s.append(");");
                assert(s@ =~= function_form(*f, kind, params@, results@));
                s
            },
            FuncKind::MethodCall => Self::call_form_str(f, params, results),
        }
    }

    pub(crate) fn function_str(&self, f: &Function, kind: FuncKind) -> (r: Result<String, GenError>)
        ensures
            text_of(r) == function_text(*self.0, *f, kind),
    {
        let params = match self.params_str(&f.params) {
            Err(e) => return Err(e),
            Ok(x) => x,
        };
        let results = match self.results_str(&f.results) {
            Err(e) => return Err(e),
            Ok(x) => x,
        };
        let mut s = String::new();
        add_docs(&mut s, &f.docs.contents);
        let form = Self::form_str(f, kind, &params, &results);
        s.append(form.as_str());
        Ok(s)
    }

    /// Appends one function, emitted as `kind` asks. On failure nothing is
    /// appended.
    pub fn add_function(&self, s: &mut String, f: &Function, kind: FuncKind) -> (r: Result<(), GenError>)
        ensures
            appended(old(s)@, final(s)@, r, function_text(*self.0, *f, kind)),
    {
        match self.function_str(f, kind) {
            Err(e) => Err(e),
            Ok(t) => {
                s.append(t.as_str());
                Ok(())
            },
        }
    }

    pub(crate) fn interface_str(&self, name: &str, interface: &Interface) -> (r: Result<String, GenError>)
        ensures
            text_of(r) == interface_text(*self.0, name@, *interface),
    {
        let fs = &interface.functions;
        let ghost rs = Seq::new(fs@.len(), |k: int| function_text(*self.0, fs@[k], FuncKind::Method));
        proof { lemma_joined_whole(rs, Seq::empty()); }
        let mut acc = String::new();
        let mut i: usize = 0;
        while i < fs.len()
            invariant
                i <= fs@.len(),
                fs == &interface.functions,
                rs == Seq::new(fs@.len(), |k: int| function_text(*self.0, fs@[k], FuncKind::Method)),
                joined(rs.subrange(0, i as int), Seq::empty()) == Ok::<Seq<char>, GenError>(acc@),
            decreases fs.len() - i,
        {
            let item = match self.function_str(&fs[i], FuncKind::Method) {
                Err(e) => {
                    proof { lemma_joined_error(rs, Seq::empty(), i as nat, e); }
                    return Err(e);
                },
                Ok(item) => item,
            };
            proof { lemma_joined_push(rs, Seq::empty(), i as nat, acc@, item@); }
            let ghost prev = acc@;
            acc.append(item.as_str());
            assert(acc@ =~= if i == 0 { item@ } else { prev + Seq::<char>::empty() + item@ });
            i = i + 1;
        }
        let mut s = String::new();
        add_docs(&mut s, &interface.docs.contents);
        s.append("class ");
        let class_name = pascal_case(name);
        s.append(class_name.as_str());
        s.append(" {");
        s.append(acc.as_str());
        s.append("}");
        assert(s@ =~= doc_text(interface.docs.contents) + "class "@ + pascal_of(name@) + " {"@ + acc@ + "}"@);
        Ok(s)
    }

    /// Appends the class of one interface under the given name. On failure
    /// nothing is appended.
    pub fn add_interface(&self, s: &mut String, name: &str, interface: &Interface) -> (r: Result<(), GenError>)
        ensures
            appended(old(s)@, final(s)@, r, interface_text(*self.0, name@, *interface)),
    {
        match self.interface_str(name, interface) {
            Err(e) => Err(e),
            Ok(t) => {
                s.append(t.as_str());
                Ok(())
            },
        }
    }

    pub(crate) fn interfaces_str(&self) -> (r: Result<String, GenError>)
        ensures
            text_of(r) == interfaces_text(*self.0),
    {
        let is = &self.0.interfaces;
        let ghost rs = Seq::new(is@.len(), |k: int| interface_text(*self.0, is@[k].name@, is@[k]));
        proof { lemma_joined_whole(rs, Seq::empty()); }
        let mut acc = String::new();
        let mut i: usize = 0;
        while i < is.len()
            invariant
                i <= is@.len(),
                is == &self.0.interfaces,
                rs == Seq::new(is@.len(), |k: int| interface_text(*self.0, is@[k].name@, is@[k])),
                joined(rs.subrange(0, i as int), Seq::empty()) == Ok::<Seq<char>, GenError>(acc@),
            decreases is.len() - i,
        {
            let item = match self.interface_str(is[i].name.as_str(), &is[i]) {
                Err(e) => {
                    proof { lemma_joined_error(rs, Seq::empty(), i as nat, e); }
                    return Err(e);
                },
                Ok(item) => item,
            };
            proof { lemma_joined_push(rs, Seq::empty(), i as nat, acc@, item@); }
            let ghost prev = acc@;
            acc.append(item.as_str());
            assert(acc@ =~= if i == 0 { item@ } else { prev + Seq::<char>::empty() + item@ });
            i = i + 1;
        }
        Ok(acc)
    }

    /// Appends the class of every interface of the package, in order. On
    /// failure nothing is appended.
    pub fn add_interfaces(&self, s: &mut String) -> (r: Result<(), GenError>)
        ensures
            appended(old(s)@, final(s)@, r, interfaces_text(*self.0)),
    {
        match self.interfaces_str() {
            Err(e) => Err(e),
            Ok(t) => {
                s.append(t.as_str());
                Ok(())
            },
        }
    }

    pub(crate) fn definitions_str(&self) -> (r: Result<String, GenError>)
        ensures
            text_of(r) == definitions_text(*self.0),
    {
        let ts = &self.0.types;
        let ghost rs = Seq::new(ts@.len(), |k: int| def_text(*self.0, ts@[k], budget(*self.0)));
        proof { lemma_joined_whole(rs, Seq::empty()); }
        let mut acc = String::new();
        let mut i: usize = 0;
        while i < ts.len()
            invariant
                i <= ts@.len(),
                ts == &self.0.types,
                rs == Seq::new(ts@.len(), |k: int| def_text(*self.0, ts@[k], budget(*self.0))),
                joined(rs.subrange(0, i as int), Seq::empty()) == Ok::<Seq<char>, GenError>(acc@),
            decreases ts.len() - i,
        {
            let item = match self.type_def_to_definition(&ts[i]) {
                Err(e) => {
                    proof { lemma_joined_error(rs, Seq::empty(), i as nat, e); }
                    return Err(e);
                },
                Ok(item) => item,
            };
            proof { lemma_joined_push(rs, Seq::empty(), i as nat, acc@, item@); }
            let ghost prev = acc@;
            acc.append(item.as_str());
            assert(acc@ =~= if i == 0 { item@ } else { prev + Seq::<char>::empty() + item@ });
            i = i + 1;
        }
        Ok(acc)
    }

    /// The whole output for the package: the definition of every type, then
    /// the class of every interface.
    pub fn generate(&self) -> (r: Result<String, GenError>)
        ensures
            text_of(r) == package_text(*self.0),
    {
        let mut s = match self.definitions_str() {
            Err(e) => return Err(e),
            Ok(s) => s,
        };
        let ghost defs = s@;
        match self.add_interfaces(&mut s) {
            Err(e) => Err(e),
            Ok(()) => {
                assert(s@ =~= defs + (s@.subrange(defs.len() as int, s@.len() as int)) + Seq::<char>::empty());
                Ok(s)
            },
        }
    }
}


/// The marshalling and idiomatic names of a scalar are fixed by its kind
/// alone: whatever the package, both succeed with the same text.
pub proof fn scalar_names_depend_on_kind_alone(p: Package, q: Package, t: Type)
    requires
        !t.is_id(),
    ensures
        ffi_name(p, t) == Ok::<Seq<char>, GenError>(scalar_ffi(t)),
        idiom_name(p, t) == Ok::<Seq<char>, GenError>(scalar_idiom(t)),
        ffi_name(p, t) == ffi_name(q, t),
        idiom_name(p, t) == idiom_name(q, t),
{
}

/// Generation is a function of the package: equal packages give equal
/// output, or the same error.
pub proof fn generation_is_deterministic(p: Package, q: Package)
    requires
        p == q,
    ensures
        package_text(p) == package_text(q),
        definitions_text(p) == definitions_text(q),
        interfaces_text(p) == interfaces_text(q),
{
}

pub(crate) proof fn lemma_joined_any_error(rs: Seq<Result<Seq<char>, GenError>>, sep: Seq<char>, i: int)
    requires
        0 <= i < rs.len(),
        rs[i] is Err,
    ensures
        joined(rs, sep) is Err,
    decreases rs.len(),
{
    if i < rs.len() - 1 {
        lemma_joined_any_error(rs.drop_last(), sep, i);
    }
}

/// A definition of a kind with no rendering aborts generation of the whole
/// package.
pub proof fn unknown_kind_aborts(p: Package, i: int)
    requires
        0 <= i < p.types@.len(),
        p.types@[i].kind is Unknown,
    ensures
        package_text(p) is Err,
        def_text(p, p.types@[i], budget(p)) == Err::<Seq<char>, GenError>(GenError::UnknownKind),
{
    let rs = Seq::new(p.types@.len(), |k: int| def_text(p, p.types@[k], budget(p)));
    lemma_joined_any_error(rs, Seq::empty(), i);
}

/// A reference to an id outside the type table aborts generation of the
/// whole package, with that id as the error.
pub proof fn dangling_reference_aborts(p: Package, i: int, j: usize)
    requires
        0 <= i < p.types@.len(),
        p.types@[i].kind == TypeDefKind::Type(Type::Id(j)),
        j >= p.types@.len(),
    ensures
        package_text(p) is Err,
        def_text(p, p.types@[i], budget(p)) == Err::<Seq<char>, GenError>(GenError::DanglingType(j)),
        idiom_name(p, Type::Id(j)) == Err::<Seq<char>, GenError>(GenError::DanglingType(j)),
        ffi_name(p, Type::Id(j)) == Err::<Seq<char>, GenError>(GenError::DanglingType(j)),
{
    let rs = Seq::new(p.types@.len(), |k: int| def_text(p, p.types@[k], budget(p)));
    lemma_joined_any_error(rs, Seq::empty(), i);
}

} // verus!
