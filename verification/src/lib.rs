//! Validation and construction of two immutable payout records: a `Royalty`
//! (a capped percentage of a sale, itself divided among payees) and a
//! `SplitOwners` set (a division of a full payout among payees).
//!
//! Both records wrap a share map: a mapping from account identity to a
//! percentage share. Percentages are held in basis points (one percent is
//! 100 basis points) so that the sum check is exact integer arithmetic.
//! A share map is accepted only if it has fewer than 100 entries, every key
//! is a well-formed account identity, every share is strictly positive, and
//! the shares sum to exactly one hundred percent. Downstream payout logic
//! trusts these records unconditionally once constructed, so the whole
//! validation protocol is stated in the contracts here.

pub mod error;
pub mod identity;
pub mod royalty;
pub mod share;
pub mod split_owners;

pub use crate::error::ValidationError;
pub use crate::royalty::Royalty;
pub use crate::share::ShareMap;
pub use crate::split_owners::SplitOwners;
