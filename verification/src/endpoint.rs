//! Identifiers of remote endpoints.
//!
//! The service addresses two kinds of endpoint: the primary ledger of
//! record, whose identifier the embedding program knows, and archive
//! shards, whose identifiers arrive only inside the primary's redirect
//! replies. The service never interprets an identifier; it only carries
//! one from a redirect into the follow-up call and into error reports.

use vstd::prelude::*;

verus! {

broadcast use vstd::array::group_array_axioms;

/// An opaque identifier of a remote endpoint. On the host platform an
/// identifier is at most 29 bytes long; it is held inline, zero-padded,
/// so that values can be copied freely. `len` gives the significant
/// prefix of `bytes`.
#[derive(Clone, Copy, PartialEq, Eq, Hash, Debug)]
pub struct EndpointId {
    bytes: [u8; 29],
    len: usize,
}

impl View for EndpointId {
    type V = Seq<u8>;

    closed spec fn view(&self) -> Seq<u8> {
        self.bytes@.take(self.len as int)
    }
}

impl EndpointId {
    /// Well-formed: the significant length fits the inline buffer and the
    /// padding is zero, so identifiers with equal bytes are equal values.
    pub closed spec fn wf(&self) -> bool {
        &&& self.len <= 29
        &&& forall|i: int| self.len <= i < 29 ==> self.bytes@[i] == 0u8
    }

    /// Builds an identifier from its bytes; refused exactly when they do
    /// not fit the inline buffer.
    pub fn from_bytes(v: &[u8]) -> (r: Option<EndpointId>)
        ensures
            match r {
                Some(e) => v@.len() <= 29 && e.wf() && e@ == v@,
                None => v@.len() > 29,
            },
    {
        if v.len() > 29 {
            return None;
        }
        let mut bytes: [u8; 29] = [0u8; 29];
        let mut i: usize = 0;
        while i < v.len()
            invariant
                v@.len() <= 29,
                i <= v@.len(),
                forall|j: int| 0 <= j < i ==> bytes@[j] == v@[j],
                forall|j: int| i <= j < 29 ==> bytes@[j] == 0u8,
            decreases v@.len() - i,
        {
            bytes[i] = v[i];
            i = i + 1;
        }
        let e = EndpointId { bytes, len: v.len() };
        proof {
            assert(e@ =~= v@);
        }
        Some(e)
    }

    /// The identifier's bytes, for the embedding program to address the
    /// real endpoint.
    pub fn to_bytes(&self) -> (r: Vec<u8>)
        requires
            self.wf(),
        ensures
            r@ == self@,
    {
        let mut r: Vec<u8> = Vec::new();
        let mut i: usize = 0;
        while i < self.len
            invariant
                self.wf(),
                i <= self.len,
                r@ =~= self@.take(i as int),
            decreases self.len - i,
        {
            r.push(self.bytes[i]);
            i = i + 1;
        }
        proof {
            assert(r@ =~= self@);
        }
        r
    }
}

} // verus!
