//! A node's view of recent base-chain history, exchanged with peers in the handshake.

use std::collections::HashMap;
use sha2::Digest;
use vstd::prelude::*;
use crate::types::BurnchainHeaderHash;

verus! {

broadcast use vstd::std_specs::hash::group_hash_axioms;

/// How many blocks below the stable height a peer's view may reach back.
pub const MAX_NEIGHBOR_BLOCK_DELAY: u64 = 288;

/// SHA-256 digest of a byte string.
pub uninterp spec fn sha256_of(data: Seq<u8>) -> Seq<u8>;

/// Relies on sha2's `Sha256` through digest's `Digest::{new, input, result}`:
/// a 32-byte digest that depends on the input bytes alone.
#[verifier::external_body]
fn sha256(data: &[u8]) -> (r: [u8; 32])
    ensures
        r@ == sha256_of(data@),
{
    let mut hasher = sha2::Sha256::new();
    hasher.input(data);
    let digest = hasher.result();
    let mut r = [0u8; 32];
    r.copy_from_slice(&digest[..]);
    r
}

/// The eight bytes of a height, least significant first.
pub open spec fn le_bytes(i: u64) -> Seq<u8> {
    seq![
        (i % 0x100) as u8,
        ((i / 0x100) % 0x100) as u8,
        ((i / 0x1_0000) % 0x100) as u8,
        ((i / 0x100_0000) % 0x100) as u8,
        ((i / 0x1_0000_0000) % 0x100) as u8,
        ((i / 0x100_0000_0000) % 0x100) as u8,
        ((i / 0x1_0000_0000_0000) % 0x100) as u8,
        ((i / 0x100_0000_0000_0000) % 0x100) as u8,
    ]
}

fn to_le_bytes(i: u64) -> (r: [u8; 8])
    ensures
        r@ == le_bytes(i),
{
    let r = [
        (i % 0x100) as u8,
        ((i / 0x100) % 0x100) as u8,
        ((i / 0x1_0000) % 0x100) as u8,
        ((i / 0x100_0000) % 0x100) as u8,
        ((i / 0x1_0000_0000) % 0x100) as u8,
        ((i / 0x100_0000_0000) % 0x100) as u8,
        ((i / 0x1_0000_0000_0000) % 0x100) as u8,
        ((i / 0x100_0000_0000_0000) % 0x100) as u8,
    ];
    assert(r@ =~= le_bytes(i));
    r
}

/// The lowest height a view reaches: the stable height less the delay, or zero.
pub open spec fn oldest_height(stable_height: u64, delay: u64) -> u64 {
    if stable_height < delay {
        0
    } else {
        (stable_height - delay) as u64
    }
}

/// A snapshot of the chain tip, the stable block, and the hashes of recent heights.
#[derive(Clone, Debug, PartialEq)]
pub struct BurnchainView {
    /// Height of the chain tip.
    pub burn_block_height: u64,
    /// Hash of the chain tip.
    pub burn_block_hash: BurnchainHeaderHash,
    /// Height of the latest stable block.
    pub burn_stable_block_height: u64,
    /// Hash of the latest stable block.
    pub burn_stable_block_hash: BurnchainHeaderHash,
    /// The hash of each height from the oldest one a neighbour may share up to the tip.
    pub last_burn_block_hashes: HashMap<u64, BurnchainHeaderHash>,
}

impl BurnchainView {
    /// The bytes a filled view holds at height `h`: the stable hash at the
    /// stable height, the tip hash at the tip, and the digest of the height's
    /// little-endian bytes elsewhere.
    pub open spec fn hash_bytes_at(&self, h: u64) -> Seq<u8> {
        if h == self.burn_stable_block_height {
            self.burn_stable_block_hash.0@
        } else if h == self.burn_block_height {
            self.burn_block_hash.0@
        } else {
            sha256_of(le_bytes(h))
        }
    }

    /// The map of `self` covers exactly the heights from `oldest_height` to the
    /// tip, each with the bytes `hash_bytes_at` gives.
    pub open spec fn is_filled(&self, delay: u64) -> bool {
        let oldest = oldest_height(self.burn_stable_block_height, delay);
        &&& forall|h: u64|
            #[trigger] self.last_burn_block_hashes@.contains_key(h) <==> oldest <= h
                <= self.burn_block_height
        &&& forall|h: u64|
            #[trigger] self.last_burn_block_hashes@.contains_key(h)
                ==> self.last_burn_block_hashes@[h].0@ == self.hash_bytes_at(h)
    }

    /// Replaces the height-to-hash map with one that covers the heights from
    /// the stable height less `neighbor_block_delay` (or zero) up to the tip.
    pub fn fill_last_burn_block_hashes(&mut self, neighbor_block_delay: u64)
        requires
            old(self).burn_block_height < u64::MAX,
        ensures
            final(self).burn_block_height == old(self).burn_block_height,
            final(self).burn_block_hash == old(self).burn_block_hash,
            final(self).burn_stable_block_height == old(self).burn_stable_block_height,
            final(self).burn_stable_block_hash == old(self).burn_stable_block_hash,
            final(self).is_filled(neighbor_block_delay),
    {
        let oldest = if self.burn_stable_block_height < neighbor_block_delay {
            0
        } else {
            self.burn_stable_block_height - neighbor_block_delay
        };
        let tip = self.burn_block_height;
        let mut ret: HashMap<u64, BurnchainHeaderHash> = HashMap::new();
        let mut i: u64 = oldest;
        while i < tip + 1
            invariant
                tip == self.burn_block_height,
                tip < u64::MAX,
                oldest == oldest_height(self.burn_stable_block_height, neighbor_block_delay),
                oldest <= i,
                i <= tip + 1 || i == oldest,
                forall|h: u64| #[trigger]
                    ret@.contains_key(h) <==> oldest <= h < i,
                forall|h: u64| #[trigger]
                    ret@.contains_key(h) ==> ret@[h].0@ == self.hash_bytes_at(h),
            decreases tip + 1 - i,
        {
            if i == self.burn_stable_block_height {
                ret.insert(i, self.burn_stable_block_hash);
            } else if i == self.burn_block_height {
                ret.insert(i, self.burn_block_hash);
            } else {
                let data = sha256(&to_le_bytes(i));
                ret.insert(i, BurnchainHeaderHash(data));
            }
            i = i + 1;
        }
        self.last_burn_block_hashes = ret;
    }

    /// Fills the view's map with the widest window a neighbour may share.
    pub fn make_test_data(&mut self)
        requires
            old(self).burn_block_height < u64::MAX,
        ensures
            final(self).burn_block_height == old(self).burn_block_height,
            final(self).burn_block_hash == old(self).burn_block_hash,
            final(self).burn_stable_block_height == old(self).burn_stable_block_height,
            final(self).burn_stable_block_hash == old(self).burn_stable_block_hash,
            final(self).is_filled(MAX_NEIGHBOR_BLOCK_DELAY),
    {
        self.fill_last_burn_block_hashes(MAX_NEIGHBOR_BLOCK_DELAY);
    }
}

} // verus!
