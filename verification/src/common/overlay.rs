//! Pre-computed boot overlays and their checksums.

use std::hash::{Hash, Hasher};

use vstd::prelude::*;

use crate::text::{hex, push_hex_u64, string_of};

verus! {

/// Hash a byte slice with std's `DefaultHasher::new()` and return
/// `Hasher::finish`.  Nothing is stated of the digest: std documents that
/// hashed data is neither portable across platforms nor stable across
/// compiler versions (the slice's length goes in as a `usize`).
#[verifier::external_body]
fn hash_bytes(data: &[u8]) -> (h: u64) {
    let mut hasher = std::collections::hash_map::DefaultHasher::new();
    data.hash(&mut hasher);
    hasher.finish()
}

/// Whether `s` is the lower-case hexadecimal rendering of some digest.
pub open spec fn is_hex_digest(s: Seq<char>) -> bool {
    exists|h: u64| s == hex(h as nat)
}

/// Compute a checksum for overlay data: the lower-case hexadecimal
/// rendering of its `DefaultHasher` digest.
pub fn compute_overlay_checksum(data: &[u8]) -> (s: String)
    ensures
        is_hex_digest(s@),
{
    let h = hash_bytes(data);
    let mut out: Vec<char> = Vec::new();
    push_hex_u64(&mut out, h);
    proof {
        assert(out@ == hex(h as nat));
    }
    string_of(&out)
}

/// Pre-computed boot overlay for a vCluster (compressed config bundle).
#[derive(Debug, Clone)]
pub struct BootOverlay {
    pub vcluster_id: String,
    pub version: u64,
    pub data: Vec<u8>,
    pub checksum: String,
}

impl BootOverlay {
    /// Create a new overlay with its checksum computed from the data.
    pub fn new(vcluster_id: String, version: u64, data: Vec<u8>) -> (o: Self)
        ensures
            o.vcluster_id == vcluster_id,
            o.version == version,
            o.data@ == data@,
            is_hex_digest(o.checksum@),
    {
        let checksum = compute_overlay_checksum(data.as_slice());
        BootOverlay { vcluster_id, version, data, checksum }
    }
}

} // verus!
