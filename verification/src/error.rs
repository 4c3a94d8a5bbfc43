//! The reasons for which construction of a share map, a `Royalty`, or a
//! `SplitOwners` is refused. Every violation is fatal to the construction
//! call: no partially built record is ever observable.

use vstd::prelude::*;

verus! {

/// Why a construction call was refused.
#[derive(Clone, Copy, Debug, PartialEq, Eq, Structural)]
pub enum ValidationError {
    /// The royalty percentage reached or exceeded the royalty cap.
    PercentageTooHigh,
    /// The royalty percentage was negative.
    PercentageNegative,
    /// The share map held one hundred entries or more.
    TooManyEntries,
    /// The key at this position (in entry order) is the first that is not a
    /// well-formed account identity.
    InvalidIdentity(usize),
    /// This share, the first non-positive one in entry order, is zero or
    /// negative.
    NonPositiveShare(i64),
    /// The shares do not sum to exactly one hundred percent.
    SumNotOneHundred,
}

} // verus!
