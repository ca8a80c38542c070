//! Recognition of country codes against the fixed ISO 3166 reference list.

use vstd::prelude::*;

use core::str::FromStr;

verus! {

/// Whether the reference list of countries recognizes this code. The list
/// is fixed, so recognition is a function of the code's characters alone.
pub uninterp spec fn is_recognized_country(code: Seq<char>) -> bool;

/// Relies on celes's `Country::from_str`: a lookup of the code (an ISO
/// 3166 alpha-2, alpha-3 or numeric code, or a country name, matched
/// case-insensitively) in the crate's static table of countries — the
/// result depends on the code's characters alone.
#[verifier::external_body]
pub(crate) fn country_code_recognized(code: &str) -> (r: bool)
    ensures
        r == is_recognized_country(code@),
{
    celes::Country::from_str(code).is_ok()
}

} // verus!
