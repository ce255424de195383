use het_paxos_ref::messages::{Ballot, ConsensusMessage, Hash256, MessageOneof, Timestamp};
use het_paxos_ref::utils::hash;
use std::cmp::Ordering;

fn h(a: u64, b: u64, c: u64, d: u64) -> Hash256 {
    Hash256 { bytes0_through7: a, bytes8_through15: b, bytes16_through23: c, bytes24_through31: d }
}

fn ts(seconds: i64, nanos: i32) -> Option<Timestamp> {
    Some(Timestamp { seconds, nanos })
}

#[test]
fn it_works() {
    let result = 2 + 2;
    assert_eq!(result, 4);
}

#[test]
fn hash_of_empty_input_is_sha3_of_nothing() {
    let r = hash(&[]);
    assert_eq!(r, h(0xa7ffc6f8bf1ed766, 0x51c14756a061d662, 0xf580ff4de43b49fa, 0x82d80a4b80f8434a));
}

#[test]
fn hash_of_abc_packs_big_endian_words() {
    let r = hash(b"abc");
    assert_eq!(r, h(0x3a985da74fe225b2, 0x045c172d6bd390bd, 0x855f086e3e9d525b, 0x46bfe24511431532));
}

#[test]
fn hash_is_deterministic() {
    let data = vec![1u8, 2, 3, 4, 5];
    assert_eq!(hash(&data), hash(&data.clone()));
    assert_ne!(hash(&data), hash(&[1u8, 2, 3, 4]));
}

#[test]
fn hash_order_is_lexicographic_over_words() {
    assert_eq!(h(1, 0, 0, 0).compare(&h(0, 9, 9, 9)), Ordering::Greater);
    assert_eq!(h(1, 2, 3, 4).compare(&h(1, 2, 3, 5)), Ordering::Less);
    assert_eq!(h(1, 2, 3, 4).compare(&h(1, 2, 3, 4)), Ordering::Equal);
    assert_eq!(h(0, 0, 7, 0).compare(&h(0, 0, 6, u64::MAX)), Ordering::Greater);
    assert!(h(0, 1, 0, 0) < h(0, 2, 0, 0));
    assert!(!(h(3, 3, 3, 3) < h(3, 3, 3, 3)));
    assert_eq!(h(1, 2, 3, 4).partial_cmp(&h(1, 2, 3, 4)), Some(Ordering::Equal));
}

#[test]
fn hash_order_matches_ord() {
    let xs = [h(0, 0, 0, 1), h(0, 0, 1, 0), h(u64::MAX, 0, 0, 0), h(0, 0, 0, 0)];
    for a in xs.iter() {
        for b in xs.iter() {
            assert_eq!(a.compare(b), a.cmp(b));
            assert_eq!(a.partial_cmp(b), Some(a.cmp(b)));
        }
    }
    assert_eq!(xs.iter().max(), Some(&h(u64::MAX, 0, 0, 0)));
}

#[test]
fn ballots_with_equal_timestamps_order_by_fingerprint() {
    let a = Ballot { timestamp: ts(5, 7), value_hash: Some(h(1, 0, 0, 0)) };
    let b = Ballot { timestamp: ts(5, 7), value_hash: Some(h(2, 0, 0, 0)) };
    assert_eq!(a.compare(&b), Ordering::Less);
    assert_eq!(b.compare(&a), Ordering::Greater);
    assert!(a < b);
}

#[test]
fn ballot_without_timestamp_is_before_epoch_plus_one_nanosecond() {
    let a = Ballot { timestamp: None, value_hash: Some(h(u64::MAX, u64::MAX, u64::MAX, u64::MAX)) };
    let b = Ballot { timestamp: ts(0, 1), value_hash: Some(h(0, 0, 0, 0)) };
    assert_eq!(a.compare(&b), Ordering::Less);
    assert!(a < b);
}

#[test]
fn ballots_without_timestamps_order_by_fingerprint() {
    let a = Ballot { timestamp: None, value_hash: Some(h(0, 0, 0, 9)) };
    let b = Ballot { timestamp: None, value_hash: Some(h(0, 0, 1, 0)) };
    assert_eq!(a.compare(&b), Ordering::Less);
    let c = Ballot { timestamp: ts(0, 0), value_hash: Some(h(0, 0, 0, 9)) };
    assert_eq!(a.compare(&c), Ordering::Equal);
    let d = Ballot { timestamp: None, value_hash: None };
    assert_eq!(d.compare(&a), Ordering::Less);
}

#[test]
fn ballots_order_by_seconds_then_nanos() {
    let a = Ballot { timestamp: ts(1, 999), value_hash: Some(h(9, 9, 9, 9)) };
    let b = Ballot { timestamp: ts(2, 0), value_hash: Some(h(0, 0, 0, 0)) };
    let c = Ballot { timestamp: ts(2, 1), value_hash: None };
    assert_eq!(a.compare(&b), Ordering::Less);
    assert_eq!(b.compare(&c), Ordering::Less);
    assert_eq!(c.compare(&a), Ordering::Greater);
    let neg = Ballot { timestamp: ts(-1, 0), value_hash: None };
    let none = Ballot { timestamp: None, value_hash: None };
    assert_eq!(neg.compare(&none), Ordering::Less);
}

#[test]
fn one_a_needs_ballot_with_timestamp_and_hash() {
    let full = Ballot { timestamp: ts(1, 2), value_hash: Some(h(1, 1, 1, 1)) };
    let m = ConsensusMessage { message_oneof: Some(MessageOneof::Ballot(full)) };
    assert!(m.is_one_a());
    let no_ts = Ballot { timestamp: None, value_hash: Some(h(1, 1, 1, 1)) };
    assert!(!ConsensusMessage { message_oneof: Some(MessageOneof::Ballot(no_ts)) }.is_one_a());
    let no_hash = Ballot { timestamp: ts(1, 2), value_hash: None };
    assert!(!ConsensusMessage { message_oneof: Some(MessageOneof::Ballot(no_hash)) }.is_one_a());
    assert!(!ConsensusMessage { message_oneof: None }.is_one_a());
    assert!(!ConsensusMessage { message_oneof: Some(MessageOneof::Other) }.is_one_a());
}
