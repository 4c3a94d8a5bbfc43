//! Construction and validation behaviour of `SplitOwners` and `Royalty`.
//!
//! Shares are in basis points: one percent is 100, and a full share map
//! sums to 10_000.

use payout_splits::error::ValidationError;
use payout_splits::royalty::Royalty;
use payout_splits::split_owners::SplitOwners;

fn jojo() -> String {
    "jojo.testnet".to_string()
}

fn speedwagon() -> String {
    "speedwagon.testnet".to_string()
}

fn zeppeli() -> String {
    "zeppeli.testnet".to_string()
}

#[test]
fn test_split_owners() {
    let r = SplitOwners::new(vec![(jojo(), 10_000)]).unwrap();
    assert_eq!(r.split_between.len(), 1);
    assert_eq!(r.split_between.entries()[0], (jojo(), 10_000));

    let s = SplitOwners::new(vec![(jojo(), 1_000), (speedwagon(), 9_000)]).unwrap();
    let sum: i64 = s.split_between.entries().iter().map(|e| e.1).sum();
    assert_eq!(sum, 10_000);
}

#[test]
fn panic_split_owners_bad_percent() {
    let d = SplitOwners::new(vec![(jojo(), 0), (speedwagon(), 10_000)]);
    assert_eq!(d.unwrap_err(), ValidationError::NonPositiveShare(0));
}

#[test]
fn panic_split_owners_less_than_100() {
    let z = SplitOwners::new(vec![
        (jojo(), 3_000),
        (speedwagon(), 3_000),
        (zeppeli(), 3_000),
    ]);
    assert_eq!(z.unwrap_err(), ValidationError::SumNotOneHundred);
}

#[test]
fn panic_split_owners_more_than_100() {
    let z = SplitOwners::new(vec![
        (jojo(), 3_000),
        (speedwagon(), 4_000),
        (zeppeli(), 4_000),
    ]);
    assert_eq!(z.unwrap_err(), ValidationError::SumNotOneHundred);
}

#[test]
fn panic_split_owners_negative_percent() {
    let z = SplitOwners::new(vec![
        (jojo(), 5_000),
        (speedwagon(), 6_000),
        (zeppeli(), -1_000),
    ]);
    assert_eq!(z.unwrap_err(), ValidationError::NonPositiveShare(-1_000));
}

#[test]
fn test_royalty() {
    let z = Royalty::new(2_000, vec![(jojo(), 10_000)]).unwrap();
    assert_eq!(z.percentage(), 2_000);
    assert_eq!(z.split_between().entries()[0], (jojo(), 10_000));

    let s = Royalty::new(1_000, vec![(jojo(), 1_000), (speedwagon(), 9_000)]).unwrap();
    assert_eq!(s.split_between().len(), 2);
}

#[test]
fn panic_royalty_bad_percent() {
    let z = Royalty::new(3_000, vec![(jojo(), 10_000)]);
    assert_eq!(z.unwrap_err(), ValidationError::PercentageTooHigh);
}

#[test]
fn panic_royalty_less_than_100() {
    let q = Royalty::new(
        1_000,
        vec![(jojo(), 3_000), (speedwagon(), 3_000), (zeppeli(), 3_000)],
    );
    assert_eq!(q.unwrap_err(), ValidationError::SumNotOneHundred);
}

#[test]
fn panic_royalty_more_than_100() {
    let q = Royalty::new(
        1_000,
        vec![(jojo(), 4_000), (speedwagon(), 3_000), (zeppeli(), 4_000)],
    );
    assert_eq!(q.unwrap_err(), ValidationError::SumNotOneHundred);
}

#[test]
fn panic_royalty_negative_percent() {
    let q = Royalty::new(
        1_000,
        vec![(jojo(), 6_500), (speedwagon(), 5_000), (zeppeli(), -1_500)],
    );
    assert_eq!(q.unwrap_err(), ValidationError::NonPositiveShare(-1_500));
}
