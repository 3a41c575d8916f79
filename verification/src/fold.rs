//! Case folding for usernames.
//!
//! Usernames are unique case-insensitively. The folding itself is Unicode
//! lowercasing, performed by the standard library; its result is named by
//! an uninterpreted spec function, so every contract that speaks of
//! case-insensitive equality speaks of the same folding.

use vstd::prelude::*;

verus! {

/// The lowercase folding of a character sequence, as computed by
/// `str::to_lowercase`.
pub uninterp spec fn lower_of(s: Seq<char>) -> Seq<char>;

/// Relies on str::to_lowercase: the result depends on the characters alone.
#[verifier::external_body]
pub fn fold_username(s: &String) -> (r: String)
    ensures
        r@ == lower_of(s@),
{
    s.as_str().to_lowercase()
}

/// Two usernames are the same account name when their foldings agree.
pub open spec fn same_username(a: Seq<char>, b: Seq<char>) -> bool {
    lower_of(a) == lower_of(b)
}

} // verus!
