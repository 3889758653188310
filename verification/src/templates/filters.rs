//! Filters available to the templates.

use vstd::prelude::*;

use crate::text::{join, join_with, lowercase, split_whitespace, to_lowercase, words};

verus! {

/// The words of `s` joined by dashes, lowercased: `"Example Operator"` becomes
/// `"example-operator"`.
pub fn dashcase(s: &str) -> (r: String)
    ensures
        r@ == lowercase(join(words(s@), "-"@)),
{
    let ws = split_whitespace(s);
    let joined = join_with(&ws, "-");
    to_lowercase(joined.as_str())
}

} // verus!
