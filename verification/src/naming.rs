//! The names that generated items carry.

use vstd::prelude::*;
use vstd::string::*;

verus! {

/// The PascalCase form of a name, as the `inflector` crate computes it: the
/// words of the name, each with a capital first letter, written together.
pub uninterp spec fn pascal_case(name: Seq<char>) -> Seq<char>;

/// Calls `inflector::cases::pascalcase::to_pascal_case`, which computes its
/// result from the characters of `name` alone. Nothing is claimed of the
/// result but that it is that function's.
#[verifier::external_body]
pub(crate) fn to_pascal_case(name: &str) -> (r: String)
    ensures
        r@ == pascal_case(name@),
{
    inflector::cases::pascalcase::to_pascal_case(name)
}

/// A name followed by a suffix.
pub fn with_suffix(name: &str, suffix: &str) -> (r: String)
    ensures
        r@ == name@ + suffix@,
{
    String::from_str(name).concat(suffix)
}

} // verus!
