//! The host-supplied account-identity predicate. The library treats it as
//! an authoritative oracle: contracts speak of its verdict through the
//! uninterpreted function `identity_ok` and make no claim about which
//! strings it accepts.

use vstd::prelude::*;

verus! {

/// The verdict of the host identity predicate on a string: `true` when the
/// string is a syntactically well-formed account identity.
pub uninterp spec fn identity_ok(s: Seq<char>) -> bool;

/// Relies on `near_sdk::env::is_valid_account_id`: whether a string is a
/// well-formed account identity depends on its bytes alone.
#[verifier::external_body]
pub(crate) fn is_valid_identity(s: &str) -> (r: bool)
    ensures
        r == identity_ok(s@),
{
    near_sdk::env::is_valid_account_id(s.as_bytes())
}

} // verus!
