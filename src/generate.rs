//! Dart source emission for the types, interfaces and functions of a
//! package: the generator, its error, and the text combinators that the
//! emitters share.
//!
//! Every routine has a spec counterpart that says, over the package graph,
//! which text it produces. Walking a reference into the type arena spends
//! one unit of a depth budget equal to the number of definitions: no chain
//! through an acyclic graph is longer, so running out means a cycle.

use vstd::prelude::*;
use crate::model::{Type, Package};

verus! {

/// How a function is emitted.
#[derive(Clone, Copy, Debug, PartialEq, Eq)]
pub enum FuncKind {
    /// A memoized symbol lookup and a method that forwards to it.
    MethodCall,
    /// A bare signature.
    Method,
    /// An immutable field holding a function value.
    Field,
}

/// Why generation stopped. Each is a fault of the input graph.
#[derive(Clone, Copy, Debug, PartialEq, Eq)]
pub enum GenError {
    /// A type id that is not in the package's type table.
    DanglingType(usize),
    /// A definition kind that has no rendering.
    UnknownKind,
    /// A chain of references longer than the type table: the graph is cyclic.
    ReferenceCycle,
}

/// The generated text of a result, as characters.
pub open spec fn text_of(r: Result<String, GenError>) -> Result<Seq<char>, GenError> {
    match r {
        Ok(s) => Ok(s@),
        Err(e) => Err(e),
    }
}

/// `pre + x + post` when `r` is `Ok(x)`; the error otherwise.
pub open spec fn wrapped(pre: Seq<char>, r: Result<Seq<char>, GenError>, post: Seq<char>) -> Result<Seq<char>, GenError> {
    match r {
        Ok(x) => Ok(pre + x + post),
        Err(e) => Err(e),
    }
}

/// The texts of `rs` joined by `sep`, or the first error among them.
pub open spec fn joined(rs: Seq<Result<Seq<char>, GenError>>, sep: Seq<char>) -> Result<Seq<char>, GenError>
    decreases rs.len(),
{
    if rs.len() == 0 {
        Ok(Seq::empty())
    } else {
        match joined(rs.drop_last(), sep) {
            Err(e) => Err(e),
            Ok(prev) => match rs.last() {
                Err(e) => Err(e),
                Ok(x) => Ok(if rs.len() == 1 { x } else { prev + sep + x }),
            },
        }
    }
}

/// The texts of `xs`, one after another.
pub open spec fn concat_texts(xs: Seq<Seq<char>>) -> Seq<char>
    decreases xs.len(),
{
    if xs.len() == 0 {
        Seq::empty()
    } else {
        concat_texts(xs.drop_last()) + xs.last()
    }
}

/// An element that fails makes the joined text fail with its error, once
/// the elements before it have succeeded.
pub proof fn lemma_joined_error(rs: Seq<Result<Seq<char>, GenError>>, sep: Seq<char>, i: nat, e: GenError)
    requires
        i < rs.len(),
        joined(rs.subrange(0, i as int), sep) is Ok,
        rs[i as int] == Err::<Seq<char>, GenError>(e),
    ensures
        joined(rs, sep) == Err::<Seq<char>, GenError>(e),
{
    assert(rs.subrange(0, i + 1 as int).drop_last() =~= rs.subrange(0, i as int));
    lemma_joined_prefix_error(rs, sep, i + 1, e);
}

proof fn lemma_joined_prefix_error(rs: Seq<Result<Seq<char>, GenError>>, sep: Seq<char>, k: nat, e: GenError)
    requires
        k <= rs.len(),
        joined(rs.subrange(0, k as int), sep) == Err::<Seq<char>, GenError>(e),
    ensures
        joined(rs, sep) == Err::<Seq<char>, GenError>(e),
    decreases rs.len() - k,
{
    if k == rs.len() {
        assert(rs.subrange(0, k as int) =~= rs);
    } else {
        assert(rs.subrange(0, k + 1 as int).drop_last() =~= rs.subrange(0, k as int));
        lemma_joined_prefix_error(rs, sep, k + 1, e);
    }
}

pub(crate) proof fn lemma_joined_push(rs: Seq<Result<Seq<char>, GenError>>, sep: Seq<char>, i: nat, prev: Seq<char>, x: Seq<char>)
    requires
        i < rs.len(),
        joined(rs.subrange(0, i as int), sep) == Ok::<Seq<char>, GenError>(prev),
        rs[i as int] == Ok::<Seq<char>, GenError>(x),
    ensures
        joined(rs.subrange(0, i + 1 as int), sep) == Ok::<Seq<char>, GenError>(
            if i == 0 { x } else { prev + sep + x }),
        i == 0 ==> prev == Seq::<char>::empty(),
{
    assert(rs.subrange(0, i + 1 as int).drop_last() =~= rs.subrange(0, i as int));
    if i == 0 {
        assert(rs.subrange(0, 0) =~= Seq::<Result<Seq<char>, GenError>>::empty());
    }
}

pub(crate) proof fn lemma_concat_push(xs: Seq<Seq<char>>, i: nat)
    requires
        i < xs.len(),
    ensures
        concat_texts(xs.subrange(0, i + 1 as int)) == concat_texts(xs.subrange(0, i as int)) + xs[i as int],
{
    assert(xs.subrange(0, i + 1 as int).drop_last() =~= xs.subrange(0, i as int));
}

pub(crate) proof fn lemma_concat_whole(xs: Seq<Seq<char>>)
    ensures
        concat_texts(xs.subrange(0, xs.len() as int)) == concat_texts(xs),
        concat_texts(xs.subrange(0, 0)) == Seq::<char>::empty(),
{
    assert(xs.subrange(0, xs.len() as int) =~= xs);
    assert(xs.subrange(0, 0) =~= Seq::<Seq<char>>::empty());
}

pub(crate) proof fn lemma_joined_whole(rs: Seq<Result<Seq<char>, GenError>>, sep: Seq<char>)
    ensures
        joined(rs.subrange(0, rs.len() as int), sep) == joined(rs, sep),
        joined(rs.subrange(0, 0), sep) == Ok::<Seq<char>, GenError>(Seq::empty()),
{
    assert(rs.subrange(0, rs.len() as int) =~= rs);
    assert(rs.subrange(0, 0) =~= Seq::<Result<Seq<char>, GenError>>::empty());
}

pub(crate) fn str_of(s: &str) -> (r: String)
    ensures
        r@ == s@,
{
    let mut r = String::new();
    r.append(s);
    r
}

pub(crate) fn wrap(pre: &str, r: Result<String, GenError>, post: &str) -> (o: Result<String, GenError>)
    ensures
        text_of(o) == wrapped(pre@, text_of(r), post@),
{
    match r {
        Ok(x) => {
            let mut s = str_of(pre);
            s.append(x.as_str());
            s.append(post);
            Ok(s)
        },
        Err(e) => Err(e),
    }
}

/// A type as the host side sees it: its Dart name, its reference, its
/// marshalling name, and whether it travels behind a pointer.
pub struct DartType {
    pub name: String,
    pub ty: Type,
    pub ffi_ty: String,
    pub is_pointer: bool,
}

/// A generator over one package.
pub struct Parsed<'a>(pub &'a Package);

} // verus!
