//! Fingerprints of encoded values and the total orders over fingerprints and ballots.
use byteorder::{BigEndian, ByteOrder};
use core::cmp::Ordering;
use sha3::{Digest, Sha3_256};
use vstd::prelude::*;
use vstd::slice::slice_subrange;

use crate::messages::{Ballot, Hash256, Timestamp};

verus! {

/// The SHA3-256 digest of a byte sequence.
pub uninterp spec fn sha3_256_of(data: Seq<u8>) -> Seq<u8>;

/// The unsigned integer that the first eight bytes of `b` spell, most significant first.
pub open spec fn be_u64(b: Seq<u8>) -> int {
    b[0] as int * 0x100_0000_0000_0000 + b[1] as int * 0x1_0000_0000_0000 + b[2] as int
        * 0x100_0000_0000 + b[3] as int * 0x1_0000_0000 + b[4] as int * 0x100_0000 + b[5] as int
        * 0x1_0000 + b[6] as int * 0x100 + b[7] as int
}

/// A 32-byte digest packed into four big-endian words, in byte order.
pub open spec fn hash256_of_digest(d: Seq<u8>) -> Hash256 {
    Hash256 {
        bytes0_through7: be_u64(d.subrange(0, 8)) as u64,
        bytes8_through15: be_u64(d.subrange(8, 16)) as u64,
        bytes16_through23: be_u64(d.subrange(16, 24)) as u64,
        bytes24_through31: be_u64(d.subrange(24, 32)) as u64,
    }
}

/// The fingerprint of an encoded value.
pub open spec fn fingerprint_of(encoded: Seq<u8>) -> Hash256 {
    hash256_of_digest(sha3_256_of(encoded))
}

/// Relies on sha3's `Sha3_256::digest`: the digest of the input, 32 bytes long.
#[verifier::external_body]
fn sha3_256(data: &[u8]) -> (r: Vec<u8>)
    ensures
        r@ == sha3_256_of(data@),
        r@.len() == 32,
{
    Sha3_256::digest(data).to_vec()
}

/// Relies on byteorder's `BigEndian::read_u64`: the first eight bytes, most
/// significant first (it panics on fewer).
#[verifier::external_body]
fn read_u64_be(buf: &[u8]) -> (r: u64)
    requires
        buf@.len() >= 8,
    ensures
        r as int == be_u64(buf@),
{
    BigEndian::read_u64(buf)
}

/// Fingerprint an encoded value: its SHA3-256 digest as four big-endian words.
pub fn hash(encoded: &[u8]) -> (r: Hash256)
    ensures
        r == fingerprint_of(encoded@),
{
    let d = sha3_256(encoded);
    let s = d.as_slice();
    let w0 = read_u64_be(slice_subrange(s, 0, 8));
    let w1 = read_u64_be(slice_subrange(s, 8, 16));
    let w2 = read_u64_be(slice_subrange(s, 16, 24));
    let w3 = read_u64_be(slice_subrange(s, 24, 32));
    Hash256 { bytes0_through7: w0, bytes8_through15: w1, bytes16_through23: w2, bytes24_through31: w3 }
}

/// The order of two integers.
pub open spec fn int_cmp(a: int, b: int) -> Ordering {
    if a < b {
        Ordering::Less
    } else if a > b {
        Ordering::Greater
    } else {
        Ordering::Equal
    }
}

/// Lexicographic combination: the first comparison decides unless it is a tie.
pub open spec fn lex(first: Ordering, rest: Ordering) -> Ordering {
    if first is Equal {
        rest
    } else {
        first
    }
}

/// Fingerprints are ordered as the tuple of their four words.
pub open spec fn hash_cmp(a: Hash256, b: Hash256) -> Ordering {
    lex(
        int_cmp(a.bytes0_through7 as int, b.bytes0_through7 as int),
        lex(
            int_cmp(a.bytes8_through15 as int, b.bytes8_through15 as int),
            lex(
                int_cmp(a.bytes16_through23 as int, b.bytes16_through23 as int),
                int_cmp(a.bytes24_through31 as int, b.bytes24_through31 as int),
            ),
        ),
    )
}

pub open spec fn hash_lt(a: Hash256, b: Hash256) -> bool {
    hash_cmp(a, b) is Less
}

/// An absent fingerprint comes before every present one.
pub open spec fn opt_hash_cmp(a: Option<Hash256>, b: Option<Hash256>) -> Ordering {
    match (a, b) {
        (None, None) => Ordering::Equal,
        (None, Some(_)) => Ordering::Less,
        (Some(_), None) => Ordering::Greater,
        (Some(x), Some(y)) => hash_cmp(x, y),
    }
}

/// The timestamp that a ballot is ordered by: (0, 0) when it has none.
pub open spec fn effective_timestamp(t: Option<Timestamp>) -> (i64, i32) {
    match t {
        Some(t) => (t.seconds, t.nanos),
        None => (0, 0),
    }
}

pub open spec fn timestamp_cmp(a: Option<Timestamp>, b: Option<Timestamp>) -> Ordering {
    lex(
        int_cmp(effective_timestamp(a).0 as int, effective_timestamp(b).0 as int),
        int_cmp(effective_timestamp(a).1 as int, effective_timestamp(b).1 as int),
    )
}

/// Ballots are ordered by effective timestamp, then by value fingerprint.
pub open spec fn ballot_cmp(a: Ballot, b: Ballot) -> Ordering {
    lex(timestamp_cmp(a.timestamp, b.timestamp), opt_hash_cmp(a.value_hash, b.value_hash))
}

pub open spec fn ballot_lt(a: Ballot, b: Ballot) -> bool {
    ballot_cmp(a, b) is Less
}

fn cmp_u64(a: u64, b: u64) -> (r: Ordering)
    ensures
        r == int_cmp(a as int, b as int),
{
    if a < b {
        Ordering::Less
    } else if a > b {
        Ordering::Greater
    } else {
        Ordering::Equal
    }
}

fn cmp_i64(a: i64, b: i64) -> (r: Ordering)
    ensures
        r == int_cmp(a as int, b as int),
{
    if a < b {
        Ordering::Less
    } else if a > b {
        Ordering::Greater
    } else {
        Ordering::Equal
    }
}

fn cmp_i32(a: i32, b: i32) -> (r: Ordering)
    ensures
        r == int_cmp(a as int, b as int),
{
    if a < b {
        Ordering::Less
    } else if a > b {
        Ordering::Greater
    } else {
        Ordering::Equal
    }
}

fn then_cmp(first: Ordering, rest: Ordering) -> (r: Ordering)
    ensures
        r == lex(first, rest),
{
    match first {
        Ordering::Equal => rest,
        _ => first,
    }
}

impl Hash256 {
    /// Compare two fingerprints word by word, word 0 first.
    pub fn compare(&self, other: &Hash256) -> (r: Ordering)
        ensures
            r == hash_cmp(*self, *other),
    {
        then_cmp(
            cmp_u64(self.bytes0_through7, other.bytes0_through7),
            then_cmp(
                cmp_u64(self.bytes8_through15, other.bytes8_through15),
                then_cmp(
                    cmp_u64(self.bytes16_through23, other.bytes16_through23),
                    cmp_u64(self.bytes24_through31, other.bytes24_through31),
                ),
            ),
        )
    }
}

impl PartialOrd for Hash256 {
    fn partial_cmp(&self, other: &Hash256) -> (r: Option<Ordering>) {
        Some(self.compare(other))
    }
}

impl vstd::std_specs::cmp::PartialOrdSpecImpl for Hash256 {
    open spec fn obeys_partial_cmp_spec() -> bool {
        true
    }

    open spec fn partial_cmp_spec(&self, other: &Hash256) -> Option<Ordering> {
        Some(hash_cmp(*self, *other))
    }
}

fn cmp_opt_hash(a: &Option<Hash256>, b: &Option<Hash256>) -> (r: Ordering)
    ensures
        r == opt_hash_cmp(*a, *b),
{
    match (a, b) {
        (None, None) => Ordering::Equal,
        (None, Some(_)) => Ordering::Less,
        (Some(_), None) => Ordering::Greater,
        (Some(x), Some(y)) => x.compare(y),
    }
}

fn timestamp_tuple(t: &Option<Timestamp>) -> (r: (i64, i32))
    ensures
        r == effective_timestamp(*t),
{
    match t {
        Some(t) => (t.seconds, t.nanos),
        None => (0, 0),
    }
}

impl Ballot {
    /// Compare two ballots by effective timestamp, then by value fingerprint.
    pub fn compare(&self, other: &Ballot) -> (r: Ordering)
        ensures
            r == ballot_cmp(*self, *other),
    {
        let (s0, n0) = timestamp_tuple(&self.timestamp);
        let (s1, n1) = timestamp_tuple(&other.timestamp);
        then_cmp(
            then_cmp(cmp_i64(s0, s1), cmp_i32(n0, n1)),
            cmp_opt_hash(&self.value_hash, &other.value_hash),
        )
    }
}

impl PartialOrd for Ballot {
    fn partial_cmp(&self, other: &Ballot) -> (r: Option<Ordering>) {
        Some(self.compare(other))
    }
}

impl vstd::std_specs::cmp::PartialOrdSpecImpl for Ballot {
    open spec fn obeys_partial_cmp_spec() -> bool {
        true
    }

    open spec fn partial_cmp_spec(&self, other: &Ballot) -> Option<Ordering> {
        Some(ballot_cmp(*self, *other))
    }
}

/// Fingerprint order is a strict total order: irreflexive, antisymmetric,
/// transitive, and any two fingerprints are equal or ordered one way; it ties
/// exactly on equal fingerprints.
pub proof fn lemma_hash_order_strict_total(a: Hash256, b: Hash256, c: Hash256)
    ensures
        !hash_lt(a, a),
        hash_lt(a, b) ==> !hash_lt(b, a),
        hash_lt(a, b) && hash_lt(b, c) ==> hash_lt(a, c),
        hash_lt(a, b) || a == b || hash_lt(b, a),
        (hash_cmp(a, b) is Equal) <==> a == b,
        hash_cmp(a, b) is Greater <==> hash_lt(b, a),
{
}

/// Ballots with the same effective timestamp are ordered by their fingerprints;
/// a ballot without a timestamp comes before one stamped (0, 1) whatever the
/// fingerprints; two ballots without timestamps are ordered by fingerprint.
pub proof fn lemma_ballot_tie_break(a: Ballot, b: Ballot)
    ensures
        effective_timestamp(a.timestamp) == effective_timestamp(b.timestamp) ==> ballot_cmp(a, b)
            == opt_hash_cmp(a.value_hash, b.value_hash),
        a.timestamp is None && b.timestamp == Some(Timestamp { seconds: 0, nanos: 1 })
            ==> ballot_lt(a, b),
        a.timestamp is None && b.timestamp is None ==> ballot_cmp(a, b) == opt_hash_cmp(
            a.value_hash,
            b.value_hash,
        ),
{
}

/// Ballot order is a strict total order over effective timestamp and fingerprint.
pub proof fn lemma_ballot_order_strict_total(a: Ballot, b: Ballot, c: Ballot)
    ensures
        !ballot_lt(a, a),
        ballot_lt(a, b) ==> !ballot_lt(b, a),
        ballot_lt(a, b) && ballot_lt(b, c) ==> ballot_lt(a, c),
        ballot_lt(a, b) || ballot_cmp(a, b) is Equal || ballot_lt(b, a),
        ballot_cmp(a, b) is Equal <==> (effective_timestamp(a.timestamp) == effective_timestamp(
            b.timestamp) && a.value_hash == b.value_hash),
{
    lemma_hash_order_strict_total(a.value_hash->0, b.value_hash->0, c.value_hash->0);
}

/// Fingerprinting is deterministic: identical encodings give identical fingerprints.
pub proof fn lemma_fingerprint_deterministic(x: Seq<u8>, y: Seq<u8>)
    requires
        x == y,
    ensures
        fingerprint_of(x) == fingerprint_of(y),
{
}

} // verus!
