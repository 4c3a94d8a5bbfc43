//! The share map and the validation protocol shared by both record kinds.
//!
//! A share map sends each payee's account identity to a strictly positive
//! share, measured in basis points (one percent is 100 basis points). The
//! validator enforces, in this order: cardinality below [`MAX_ENTRIES`],
//! well-formedness of every key, strict positivity of every share, and an
//! exact sum of [`ONE_HUNDRED_PERCENT`].

use vstd::prelude::*;

use crate::error::ValidationError;
use crate::identity::identity_ok;
use crate::identity::is_valid_identity;

verus! {

/// One hundred percent, in basis points.
pub const ONE_HUNDRED_PERCENT: i64 = 10_000;

/// Exclusive upper bound on the number of entries of a share map.
pub const MAX_ENTRIES: usize = 100;

/// The sum of the shares of an entry sequence.
pub open spec fn sum_of(s: Seq<(String, i64)>) -> int
    decreases s.len(),
{
    if s.len() == 0 {
        0
    } else {
        sum_of(s.drop_last()) + s.last().1
    }
}

/// No two entries share a key.
pub open spec fn keys_distinct(s: Seq<(String, i64)>) -> bool {
    forall|i: int, j: int| 0 <= i < j < s.len() ==> s[i].0@ != s[j].0@
}

/// Every key is a well-formed account identity.
pub open spec fn all_keys_valid(s: Seq<(String, i64)>) -> bool {
    forall|i: int| 0 <= i < s.len() ==> identity_ok(s[i].0@)
}

/// Every share is strictly positive.
pub open spec fn all_shares_positive(s: Seq<(String, i64)>) -> bool {
    forall|i: int| 0 <= i < s.len() ==> s[i].1 > 0
}

/// The key at `i` is the first one that the identity predicate refuses.
pub open spec fn first_invalid_key_at(s: Seq<(String, i64)>, i: int) -> bool {
    &&& 0 <= i < s.len()
    &&& !identity_ok(s[i].0@)
    &&& forall|j: int| 0 <= j < i ==> identity_ok(s[j].0@)
}

/// The share at `i` is the first one that is zero or negative.
pub open spec fn first_nonpositive_at(s: Seq<(String, i64)>, i: int) -> bool {
    &&& 0 <= i < s.len()
    &&& s[i].1 <= 0
    &&& forall|j: int| 0 <= j < i ==> s[j].1 > 0
}

/// Everything the validation protocol guarantees of an accepted entry
/// sequence.
pub open spec fn valid_share_seq(s: Seq<(String, i64)>) -> bool {
    &&& s.len() < MAX_ENTRIES
    &&& keys_distinct(s)
    &&& all_keys_valid(s)
    &&& all_shares_positive(s)
    &&& sum_of(s) == ONE_HUNDRED_PERCENT
}

/// A validated share map: built once by [`ShareMap::validate`], immutable
/// thereafter, and owned exclusively by the record that holds it.
#[derive(Debug)]
pub struct ShareMap {
    entries: Vec<(String, i64)>,
}

impl View for ShareMap {
    type V = Seq<(String, i64)>;

    closed spec fn view(&self) -> Seq<(String, i64)> {
        self.entries@
    }
}

impl ShareMap {
    /// The invariant of every successfully constructed share map.
    pub open spec fn wf(&self) -> bool {
        valid_share_seq(self@)
    }

    /// The shared validation protocol: checks cardinality, key
    /// well-formedness, share positivity, and the exact sum, in that order,
    /// and on success copies the entries into a fresh map of their own.
    ///
    /// The contract pins the outcome on every input: success exactly on
    /// valid entry sequences, and each error exactly on the inputs that
    /// violate its check first.
    pub fn validate(input: &Vec<(String, i64)>) -> (r: Result<ShareMap, ValidationError>)
        requires
            keys_distinct(input@),
        ensures
            r is Ok <==> valid_share_seq(input@),
            r matches Ok(m) ==> m.wf() && m@ == input@,
            r == Err::<ShareMap, ValidationError>(ValidationError::TooManyEntries) <==> input@.len()
                >= MAX_ENTRIES,
            forall|i: int|
                input@.len() < MAX_ENTRIES && first_invalid_key_at(input@, i) ==> r
                    == Err::<ShareMap, ValidationError>(ValidationError::InvalidIdentity(i as usize)),
            forall|i: int|
                input@.len() < MAX_ENTRIES && all_keys_valid(input@) && first_nonpositive_at(
                    input@,
                    i,
                ) ==> r == Err::<ShareMap, ValidationError>(
                    ValidationError::NonPositiveShare(input@[i].1),
                ),
            r == Err::<ShareMap, ValidationError>(ValidationError::SumNotOneHundred) <==> {
                &&& input@.len() < MAX_ENTRIES
                &&& all_keys_valid(input@)
                &&& all_shares_positive(input@)
                &&& sum_of(input@) != ONE_HUNDRED_PERCENT
            },
            r matches Err(e) ==> {
                ||| e is TooManyEntries
                ||| e is InvalidIdentity
                ||| e is NonPositiveShare
                ||| e is SumNotOneHundred
            },
            forall|i: usize|
                r == Err::<ShareMap, ValidationError>(ValidationError::InvalidIdentity(i))
                    ==> input@.len() < MAX_ENTRIES && first_invalid_key_at(input@, i as int),
            forall|p: i64|
                r == Err::<ShareMap, ValidationError>(ValidationError::NonPositiveShare(p)) ==> {
                    &&& input@.len() < MAX_ENTRIES
                    &&& all_keys_valid(input@)
                    &&& exists|i: int| first_nonpositive_at(input@, i) && input@[i].1 == p
                },
    {
        if input.len() >= MAX_ENTRIES {
            return Err(ValidationError::TooManyEntries);
        }

        let mut i: usize = 0;
        while i < input.len()
            invariant
                i <= input.len(),
                input@.len() < MAX_ENTRIES,
                forall|j: int| 0 <= j < i ==> identity_ok(input@[j].0@),
            decreases input.len() - i,
        {
            let entry = &input[i];
            if !is_valid_identity(entry.0.as_str()) {
                return Err(ValidationError::InvalidIdentity(i));
            }
            i += 1;
        }

        let mut sum: i128 = 0;
        let mut i: usize = 0;
        while i < input.len()
            invariant
                i <= input.len(),
                input@.len() < MAX_ENTRIES,
                all_keys_valid(input@),
                forall|j: int| 0 <= j < i ==> input@[j].1 > 0,
                sum == sum_of(input@.subrange(0, i as int)),
                0 <= sum <= (i as int) * (i64::MAX as int),
            decreases input.len() - i,
        {
            let entry = &input[i];
            if entry.1 <= 0 {
                proof {
                    assert(first_nonpositive_at(input@, i as int) && input@[i as int].1
                        == entry.1);
                }
                return Err(ValidationError::NonPositiveShare(entry.1));
            }
            proof {
                assert(((i + 1) as int) * (i64::MAX as int) == (i as int) * (i64::MAX as int) + (
                i64::MAX as int)) by (nonlinear_arith);
                assert(((i + 1) as int) * (i64::MAX as int) <= 100 * (i64::MAX as int))
                    by (nonlinear_arith)
                    requires
                        (i + 1) as int <= 100,
                ;
                assert(input@.subrange(0, (i + 1) as int).drop_last() =~= input@.subrange(
                    0,
                    i as int,
                ));
            }
            sum = sum + (entry.1 as i128);
            i += 1;
        }
        proof {
            assert(input@.subrange(0, input@.len() as int) =~= input@);
        }
        if sum != (ONE_HUNDRED_PERCENT as i128) {
            return Err(ValidationError::SumNotOneHundred);
        }

        let mut entries: Vec<(String, i64)> = Vec::new();
        let mut i: usize = 0;
        while i < input.len()
            invariant
                i <= input.len(),
                entries@ == input@.subrange(0, i as int),
            decreases input.len() - i,
        {
            let entry = &input[i];
            entries.push((entry.0.clone(), entry.1));
            proof {
                assert(input@[i as int] == (input@[i as int].0, input@[i as int].1));
                assert(entries@ =~= input@.subrange(0, (i + 1) as int));
            }
            i += 1;
        }
        proof {
            assert(entries@ =~= input@);
        }
        Ok(ShareMap { entries })
    }

    /// The validated entries, in entry order: exactly the pairs that were
    /// supplied to [`ShareMap::validate`], with no additions, omissions, or
    /// changed values.
    pub fn entries(&self) -> (r: &Vec<(String, i64)>)
        ensures
            r@ == self@,
    {
        &self.entries
    }

    /// The number of payees.
    pub fn len(&self) -> (n: usize)
        ensures
            n == self@.len(),
    {
        self.entries.len()
    }
}

/// Law: the shares of a validated share map sum to exactly one hundred
/// percent.
pub proof fn lemma_sum_invariant(m: &ShareMap)
    requires
        m.wf(),
    ensures
        sum_of(m@) == ONE_HUNDRED_PERCENT,
{
}

/// Law: every entry of a validated share map holds a strictly positive
/// share.
pub proof fn lemma_shares_positive(m: &ShareMap)
    requires
        m.wf(),
    ensures
        forall|i: int| 0 <= i < m@.len() ==> m@[i].1 > 0,
{
}

} // verus!
