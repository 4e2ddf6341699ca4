//! Country codes, as the `rust_iso3166` crate knows them.

use vstd::prelude::*;

verus! {

/// Whether `rust_iso3166::from_alpha2` finds a country for `code`: whether
/// the text is one of the two-letter codes in the crate's ISO 3166-1 table,
/// written as the table writes them.
pub uninterp spec fn alpha2_known(code: Seq<char>) -> bool;

/// The upper-case form of a text, as `str::to_uppercase` gives it.
pub uninterp spec fn uppercase(text: Seq<char>) -> Seq<char>;

/// `rust_iso3166::from_alpha2` looks a code up in the crate's table of
/// ISO 3166-1 alpha-2 codes. Whether it finds a country depends on the code
/// alone.
#[verifier::external_body]
pub(crate) fn is_alpha2(code: &str) -> (known: bool)
    ensures
        known == alpha2_known(code@),
{
    rust_iso3166::from_alpha2(code).is_some()
}

/// `str::to_uppercase` gives the upper-case form of a text by Unicode's
/// rules, which depend on the text alone.
#[verifier::external_body]
pub(crate) fn to_uppercase(text: &str) -> (upper: String)
    ensures
        upper@ == uppercase(text@),
{
    text.to_uppercase()
}

} // verus!
