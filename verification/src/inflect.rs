//! Word inflections computed by the `inflector` crate.

use vstd::prelude::*;

verus! {

/// What `inflector::string::singularize::to_singular` returns for a word.
pub uninterp spec fn singular(s: Seq<char>) -> Seq<char>;

/// What `inflector::string::pluralize::to_plural` returns for a word.
pub uninterp spec fn plural(s: Seq<char>) -> Seq<char>;

/// What `inflector::cases::snakecase::to_snake_case` returns for a string.
pub uninterp spec fn snake_case(s: Seq<char>) -> Seq<char>;

/// What `inflector::cases::classcase::to_class_case` returns for a string.
pub uninterp spec fn class_case(s: Seq<char>) -> Seq<char>;

/// Calls `inflector::string::singularize::to_singular`, whose rule tables decide the
/// result from the input alone; the contract names that result `singular`.
#[verifier::external_body]
pub(crate) fn to_singular(s: &str) -> (r: String)
    ensures
        r@ == singular(s@),
{
    inflector::string::singularize::to_singular(s)
}

/// Calls `inflector::string::pluralize::to_plural`, whose rule tables decide the
/// result from the input alone; the contract names that result `plural`.
#[verifier::external_body]
pub(crate) fn to_plural(s: &str) -> (r: String)
    ensures
        r@ == plural(s@),
{
    inflector::string::pluralize::to_plural(s)
}

/// Calls `inflector::cases::snakecase::to_snake_case`; the contract names the result
/// `snake_case` of the input.
#[verifier::external_body]
pub(crate) fn to_snake_case(s: &str) -> (r: String)
    ensures
        r@ == snake_case(s@),
{
    inflector::cases::snakecase::to_snake_case(s)
}

/// Calls `inflector::cases::classcase::to_class_case`; the contract names the result
/// `class_case` of the input.
#[verifier::external_body]
pub(crate) fn to_class_case(s: &str) -> (r: String)
    ensures
        r@ == class_case(s@),
{
    inflector::cases::classcase::to_class_case(s)
}

} // verus!
