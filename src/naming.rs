//! Identifier case conversion, provided by the `heck` crate.

use vstd::prelude::*;

verus! {

/// What `heck::AsPascalCase` renders for the given identifier.
pub uninterp spec fn pascal_of(s: Seq<char>) -> Seq<char>;

/// What `heck::AsLowerCamelCase` renders for the given identifier.
pub uninterp spec fn lower_camel_of(s: Seq<char>) -> Seq<char>;

/// Relies on `heck::AsPascalCase`: its rendering depends on the characters
/// of the input alone.
#[verifier::external_body]
pub(crate) fn pascal_case(s: &str) -> (r: String)
    ensures
        r@ == pascal_of(s@),
{
    heck::AsPascalCase(s).to_string()
}

/// Relies on `heck::AsLowerCamelCase`: its rendering depends on the
/// characters of the input alone.
#[verifier::external_body]
pub(crate) fn lower_camel_case(s: &str) -> (r: String)
    ensures
        r@ == lower_camel_of(s@),
{
    heck::AsLowerCamelCase(s).to_string()
}

} // verus!
