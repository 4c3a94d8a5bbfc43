//! The `SplitOwners` record: an uncapped division of a full payout among
//! payees by a validated share map.

use vstd::prelude::*;

use crate::error::ValidationError;
use crate::share::MAX_ENTRIES;
use crate::share::ShareMap;
use crate::share::all_keys_valid;
use crate::share::all_shares_positive;
use crate::share::first_invalid_key_at;
use crate::share::first_nonpositive_at;
use crate::share::keys_distinct;
use crate::share::sum_of;
use crate::share::valid_share_seq;
use crate::share::ONE_HUNDRED_PERCENT;

verus! {

/// A division of a full payout among payees by a validated share map.
/// Built once by [`SplitOwners::new`], immutable thereafter.
#[derive(Debug)]
pub struct SplitOwners {
    /// The share map that divides the payout among payees.
    pub split_between: ShareMap,
}

impl SplitOwners {
    /// The invariant of every successfully constructed split.
    pub open spec fn wf(&self) -> bool {
        self.split_between.wf()
    }

    /// Delegates the entries to the shared validation protocol,
    /// propagating its errors unchanged, and wraps the validated map.
    pub fn new(split_between: Vec<(String, i64)>) -> (r: Result<SplitOwners, ValidationError>)
        requires
            keys_distinct(split_between@),
        ensures
            r is Ok <==> valid_share_seq(split_between@),
            r matches Ok(so) ==> so.wf() && so.split_between@ == split_between@,
            r == Err::<SplitOwners, ValidationError>(ValidationError::TooManyEntries)
                <==> split_between@.len() >= MAX_ENTRIES,
            forall|i: int|
                split_between@.len() < MAX_ENTRIES && first_invalid_key_at(split_between@, i) ==> r
                    == Err::<SplitOwners, ValidationError>(
                    ValidationError::InvalidIdentity(i as usize),
                ),
            forall|i: int|
                split_between@.len() < MAX_ENTRIES && all_keys_valid(split_between@)
                    && first_nonpositive_at(split_between@, i) ==> r == Err::<
                    SplitOwners,
                    ValidationError,
                >(ValidationError::NonPositiveShare(split_between@[i].1)),
            r == Err::<SplitOwners, ValidationError>(ValidationError::SumNotOneHundred) <==> {
                &&& split_between@.len() < MAX_ENTRIES
                &&& all_keys_valid(split_between@)
                &&& all_shares_positive(split_between@)
                &&& sum_of(split_between@) != ONE_HUNDRED_PERCENT
            },
            r matches Err(e) ==> {
                ||| e is TooManyEntries
                ||| e is InvalidIdentity
                ||| e is NonPositiveShare
                ||| e is SumNotOneHundred
            },
            forall|i: usize|
                r == Err::<SplitOwners, ValidationError>(ValidationError::InvalidIdentity(i)) ==> {
                    &&& split_between@.len() < MAX_ENTRIES
                    &&& first_invalid_key_at(split_between@, i as int)
                },
            forall|p: i64|
                r == Err::<SplitOwners, ValidationError>(ValidationError::NonPositiveShare(p)) ==> {
                    &&& split_between@.len() < MAX_ENTRIES
                    &&& all_keys_valid(split_between@)
                    &&& exists|i: int| first_nonpositive_at(split_between@, i) && split_between@[i].1
                        == p
                },
    {
        match ShareMap::validate(&split_between) {
            Ok(m) => Ok(SplitOwners { split_between: m }),
            Err(e) => Err(e),
        }
    }
}

} // verus!
