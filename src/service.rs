//! Guest records of the service namespace, for read-only entry points, and
//! their construction from host records.
//!
//! A service call observes no effects and opens no sessions, so this namespace
//! has no effect or session identifiers: its one context holds a chain alone.
use crate::hash_codec::{encode_words, hash_words, HashValue as HostHashValue};
use crate::host;
use vstd::prelude::*;

verus! {

/// A digest as eight 64-bit words, `part1` holding its first eight bytes.
#[derive(Clone, Copy, Debug, PartialEq, Eq)]
pub struct HashValue {
    pub part1: u64,
    pub part2: u64,
    pub part3: u64,
    pub part4: u64,
    pub part5: u64,
    pub part6: u64,
    pub part7: u64,
    pub part8: u64,
}

/// A chain is identified by its digest.
pub type ChainId = HashValue;

/// Context of a read-only query: the chain queried.
#[derive(Clone, Copy, Debug, PartialEq, Eq)]
pub struct QueryContext {
    pub chain_id: ChainId,
}

impl HashValue {
    /// The eight words, in order.
    pub open spec fn parts(&self) -> Seq<u64> {
        seq![
            self.part1,
            self.part2,
            self.part3,
            self.part4,
            self.part5,
            self.part6,
            self.part7,
            self.part8,
        ]
    }

    /// Splits a digest into its eight little-endian words.
    pub fn from_host(h: HostHashValue) -> (r: HashValue)
        ensures
            r == hash_of(h),
            r.parts() == encode_words(h@),
    {
        let w = hash_words(&h);
        let r = HashValue {
            part1: w[0],
            part2: w[1],
            part3: w[2],
            part4: w[3],
            part5: w[4],
            part6: w[5],
            part7: w[6],
            part8: w[7],
        };
        assert(r.parts() =~= encode_words(h@));
        r
    }
}

/// The guest record of a host digest.
pub open spec fn hash_of(h: HostHashValue) -> HashValue {
    let w = encode_words(h@);
    HashValue {
        part1: w[0],
        part2: w[1],
        part3: w[2],
        part4: w[3],
        part5: w[4],
        part6: w[5],
        part7: w[6],
        part8: w[7],
    }
}

/// The guest record of a host chain identifier: its digest, encoded.
pub open spec fn chain_id_of(c: host::ChainId) -> ChainId {
    hash_of(c.0)
}

/// The guest record of a query context: its chain and nothing more.
pub open spec fn query_context_of(c: host::QueryContext) -> QueryContext {
    QueryContext { chain_id: chain_id_of(c.chain_id) }
}

/// Encodes a host chain identifier for the service namespace.
pub fn chain_id_from_host(c: host::ChainId) -> (r: ChainId)
    ensures
        r == chain_id_of(c),
{
    HashValue::from_host(c.0)
}

impl QueryContext {
    /// Converts a query context; this never fails.
    pub fn from_host(c: host::QueryContext) -> (r: QueryContext)
        ensures
            r == query_context_of(c),
    {
        QueryContext { chain_id: chain_id_from_host(c.chain_id) }
    }
}

} // verus!
