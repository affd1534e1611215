//! The enum variant matcher: resolves a raw token to a closed enumeration
//! value, case-insensitively against the canonical label.

use vstd::prelude::*;
use crate::model::{License, Type};
use crate::strutil::{lower, str_eq_ci};

verus! {

/// The work type a token denotes, if any; matching is ASCII
/// case-insensitive.
pub open spec fn type_of_token(t: Seq<char>) -> Option<Type> {
    if lower(t) == "software"@ {
        Some(Type::Software)
    } else if lower(t) == "dataset"@ {
        Some(Type::Dataset)
    } else {
        None
    }
}

/// The license a token denotes, if any; matching is ASCII case-insensitive
/// against the SPDX identifier.
pub open spec fn license_of_token(t: Seq<char>) -> Option<License> {
    if lower(t) == "mit"@ {
        Some(License::Mit)
    } else if lower(t) == "apache-2.0"@ {
        Some(License::Apache20)
    } else if lower(t) == "bsd-3-clause"@ {
        Some(License::Bsd3Clause)
    } else if lower(t) == "gpl-2.0"@ {
        Some(License::Gpl20)
    } else if lower(t) == "gpl-3.0"@ {
        Some(License::Gpl30)
    } else if lower(t) == "mpl-2.0"@ {
        Some(License::Mpl20)
    } else if lower(t) == "isc"@ {
        Some(License::Isc)
    } else if lower(t) == "unlicense"@ {
        Some(License::Unlicense)
    } else {
        None
    }
}

/// Proves that a label made of lowercase letters, digits, dashes and dots is
/// its own lowercase image.
proof fn lemma_lower_fixed(s: Seq<char>)
    requires
        forall|i: int| 0 <= i < s.len() ==> !('A' <= s[i] && s[i] <= 'Z'),
    ensures
        lower(s) == s,
{
    assert(lower(s) =~= s);
}

/// Resolves a work-type token.
pub fn match_type(token: &str) -> (r: Option<Type>)
    ensures
        r == type_of_token(token@),
{
    proof {
        reveal_strlit("software");
        reveal_strlit("dataset");
        lemma_lower_fixed("software"@);
        lemma_lower_fixed("dataset"@);
    }
    if str_eq_ci(token, "software") {
        Some(Type::Software)
    } else if str_eq_ci(token, "dataset") {
        Some(Type::Dataset)
    } else {
        None
    }
}

/// Resolves a license token against the closed SPDX set.
pub fn match_license(token: &str) -> (r: Option<License>)
    ensures
        r == license_of_token(token@),
{
    proof {
        reveal_strlit("mit");
        reveal_strlit("apache-2.0");
        reveal_strlit("bsd-3-clause");
        reveal_strlit("gpl-2.0");
        reveal_strlit("gpl-3.0");
        reveal_strlit("mpl-2.0");
        reveal_strlit("isc");
        reveal_strlit("unlicense");
        lemma_lower_fixed("mit"@);
        lemma_lower_fixed("apache-2.0"@);
        lemma_lower_fixed("bsd-3-clause"@);
        lemma_lower_fixed("gpl-2.0"@);
        lemma_lower_fixed("gpl-3.0"@);
        lemma_lower_fixed("mpl-2.0"@);
        lemma_lower_fixed("isc"@);
        lemma_lower_fixed("unlicense"@);
    }
    if str_eq_ci(token, "mit") {
        Some(License::Mit)
    } else if str_eq_ci(token, "apache-2.0") {
        Some(License::Apache20)
    } else if str_eq_ci(token, "bsd-3-clause") {
        Some(License::Bsd3Clause)
    } else if str_eq_ci(token, "gpl-2.0") {
        Some(License::Gpl20)
    } else if str_eq_ci(token, "gpl-3.0") {
        Some(License::Gpl30)
    } else if str_eq_ci(token, "mpl-2.0") {
        Some(License::Mpl20)
    } else if str_eq_ci(token, "isc") {
        Some(License::Isc)
    } else if str_eq_ci(token, "unlicense") {
        Some(License::Unlicense)
    } else {
        None
    }
}

} // verus!
