//! The conversion of a component identifier into the injected
//! attribute value: kebab-case, then lowercase. The two conversions
//! are done by outside code; their results are named here and the
//! composition is exposed as a verified function.
use vstd::prelude::*;

use convert_case::{Case, Casing};

verus! {

pub uninterp spec fn kebab_of(s: Seq<char>) -> Seq<char>;

pub uninterp spec fn lower_of(s: Seq<char>) -> Seq<char>;

/// The value injected for a component identifier: the identifier in
/// kebab-case, then lowercased.
pub open spec fn test_id_value(name: Seq<char>) -> Seq<char> {
    lower_of(kebab_of(name))
}

/// Relies on convert_case's `Casing::to_case` with `Case::Kebab`: the
/// conversion is a pure function of the input characters.
#[verifier::external_body]
fn to_kebab(s: &String) -> (r: String)
    ensures
        r@ == kebab_of(s@),
{
    s.as_str().to_case(Case::Kebab)
}

/// Relies on `str::to_lowercase`: the result is a pure function of
/// the input characters.
#[verifier::external_body]
fn to_lower(s: &String) -> (r: String)
    ensures
        r@ == lower_of(s@),
{
    s.as_str().to_lowercase()
}

/// The injected attribute value for component identifier `name`.
pub fn test_id_for(name: &String) -> (r: String)
    ensures
        r@ == test_id_value(name@),
{
    let k = to_kebab(name);
    to_lower(&k)
}

} // verus!
