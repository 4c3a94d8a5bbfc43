//! The `Royalty` record: a capped percentage of a sale, itself divided
//! among payees by a validated share map.

use vstd::prelude::*;

use crate::error::ValidationError;
use crate::share::MAX_ENTRIES;
use crate::share::ShareMap;
use crate::share::all_keys_valid;
use crate::share::all_shares_positive;
use crate::share::first_invalid_key_at;
use crate::share::first_nonpositive_at;
use crate::share::keys_distinct;
use crate::share::sum_of;
use crate::share::valid_share_seq;
use crate::share::ONE_HUNDRED_PERCENT;

verus! {

/// Exclusive upper bound on a royalty percentage, in basis points: a
/// royalty may claim strictly less than a quarter of a sale.
pub const ROYALTY_UPPER_LIMIT: i64 = 2_500;

/// A capped percentage of a sale, divided among payees by a validated
/// share map. Built once by [`Royalty::new`], immutable thereafter.
#[derive(Debug)]
pub struct Royalty {
    percentage: i64,
    split_between: ShareMap,
}

impl Royalty {
    /// The royalty percentage, in basis points.
    pub closed spec fn spec_percentage(&self) -> i64 {
        self.percentage
    }

    /// The share map that divides the royalty among payees.
    pub closed spec fn spec_split_between(&self) -> ShareMap {
        self.split_between
    }

    /// The invariant of every successfully constructed royalty.
    pub open spec fn wf(&self) -> bool {
        &&& 0 <= self.spec_percentage() < ROYALTY_UPPER_LIMIT
        &&& self.spec_split_between().wf()
    }

    /// Checks the cap (below [`ROYALTY_UPPER_LIMIT`] first, non-negative
    /// second), then delegates the entries to the shared validation
    /// protocol, propagating its errors unchanged.
    pub fn new(percentage: i64, split_between: Vec<(String, i64)>) -> (r: Result<
        Royalty,
        ValidationError,
    >)
        requires
            keys_distinct(split_between@),
        ensures
            r == Err::<Royalty, ValidationError>(ValidationError::PercentageTooHigh) <==> percentage
                >= ROYALTY_UPPER_LIMIT,
            r == Err::<Royalty, ValidationError>(ValidationError::PercentageNegative) <==> percentage
                < 0,
            r is Ok <==> 0 <= percentage < ROYALTY_UPPER_LIMIT && valid_share_seq(split_between@),
            r matches Ok(roy) ==> {
                &&& roy.wf()
                &&& roy.spec_percentage() == percentage
                &&& roy.spec_split_between()@ == split_between@
            },
            split_between@.len() >= MAX_ENTRIES ==> r is Err,
            0 <= percentage < ROYALTY_UPPER_LIMIT ==> {
                r == Err::<Royalty, ValidationError>(ValidationError::TooManyEntries)
                    <==> split_between@.len() >= MAX_ENTRIES
            },
            forall|i: int|
                0 <= percentage < ROYALTY_UPPER_LIMIT && split_between@.len() < MAX_ENTRIES
                    && first_invalid_key_at(split_between@, i) ==> r == Err::<
                    Royalty,
                    ValidationError,
                >(ValidationError::InvalidIdentity(i as usize)),
            forall|i: int|
                0 <= percentage < ROYALTY_UPPER_LIMIT && split_between@.len() < MAX_ENTRIES
                    && all_keys_valid(split_between@) && first_nonpositive_at(split_between@, i)
                    ==> r == Err::<Royalty, ValidationError>(
                    ValidationError::NonPositiveShare(split_between@[i].1),
                ),
            r == Err::<Royalty, ValidationError>(ValidationError::SumNotOneHundred) <==> {
                &&& 0 <= percentage < ROYALTY_UPPER_LIMIT
                &&& split_between@.len() < MAX_ENTRIES
                &&& all_keys_valid(split_between@)
                &&& all_shares_positive(split_between@)
                &&& sum_of(split_between@) != ONE_HUNDRED_PERCENT
            },
            forall|i: usize|
                r == Err::<Royalty, ValidationError>(ValidationError::InvalidIdentity(i)) ==> {
                    &&& 0 <= percentage < ROYALTY_UPPER_LIMIT
                    &&& split_between@.len() < MAX_ENTRIES
                    &&& first_invalid_key_at(split_between@, i as int)
                },
            forall|p: i64|
                r == Err::<Royalty, ValidationError>(ValidationError::NonPositiveShare(p)) ==> {
                    &&& 0 <= percentage < ROYALTY_UPPER_LIMIT
                    &&& split_between@.len() < MAX_ENTRIES
                    &&& all_keys_valid(split_between@)
                    &&& exists|i: int| first_nonpositive_at(split_between@, i) && split_between@[i].1
                        == p
                },
    {
        if percentage >= ROYALTY_UPPER_LIMIT {
            return Err(ValidationError::PercentageTooHigh);
        }
        if percentage < 0 {
            return Err(ValidationError::PercentageNegative);
        }
        match ShareMap::validate(&split_between) {
            Ok(m) => Ok(Royalty { percentage, split_between: m }),
            Err(e) => Err(e),
        }
    }

    /// The royalty percentage, in basis points.
    pub fn percentage(&self) -> (p: i64)
        ensures
            p == self.spec_percentage(),
    {
        self.percentage
    }

    /// The share map that divides the royalty among payees.
    pub fn split_between(&self) -> (m: &ShareMap)
        ensures
            *m == self.spec_split_between(),
    {
        &self.split_between
    }
}

/// Law: the percentage of a constructed royalty is non-negative and lies
/// strictly below the royalty cap.
pub proof fn lemma_royalty_cap(r: &Royalty)
    requires
        r.wf(),
    ensures
        0 <= r.spec_percentage() < ROYALTY_UPPER_LIMIT,
{
}

} // verus!
