//! Region and peer descriptors.
//!
//! A region is a contiguous key-range partition replicated across peers; a
//! peer is one replica, identified by its id and the store hosting it. The
//! merge coordinator reads these descriptors — it walks the peer list to
//! rotate leaders — so they are held here as plain values with a mathematical
//! view, rather than as the wire-format messages the outer system ships.

use vstd::prelude::*;

verus! {

/// One replica of a region: its peer id and the id of the store hosting it.
#[derive(Clone, Copy, PartialEq, Eq, Structural, Debug)]
pub struct Peer {
    pub id: u64,
    pub store_id: u64,
}

/// A region descriptor: its identity and the ordered list of replica peers.
/// The peers are logically unordered but keep a fixed sequence so leader
/// rotation can walk them round-robin.
#[derive(Clone, PartialEq, Eq, Debug)]
pub struct Region {
    pub id: u64,
    pub peers: Vec<Peer>,
}

/// Mathematical view of a region.
pub struct RegionView {
    pub id: u64,
    pub peers: Seq<Peer>,
}

impl View for Region {
    type V = RegionView;

    open spec fn view(&self) -> RegionView {
        RegionView { id: self.id, peers: self.peers@ }
    }
}

impl Region {
    /// An exact copy of the descriptor. Written out so that verified callers
    /// know the copy equals the original, field for field.
    pub fn duplicate(&self) -> (r: Region)
        ensures
            r@ == self@,
    {
        let mut peers: Vec<Peer> = Vec::new();
        let mut i: usize = 0;
        while i < self.peers.len()
            invariant
                i <= self.peers.len(),
                peers@ == self.peers@.take(i as int),
            decreases self.peers.len() - i,
        {
            peers.push(self.peers[i]);
            proof {
                assert(peers@ =~= self.peers@.take(i as int + 1));
            }
            i = i + 1;
        }
        proof {
            assert(peers@ =~= self.peers@);
        }
        Region { id: self.id, peers }
    }
}

} // verus!
