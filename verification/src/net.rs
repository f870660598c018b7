use vstd::prelude::*;

verus! {

/// The peers whose write failed: the places of the `false` entries of `delivered`, in
/// rising order.
pub open spec fn failed_peers(delivered: Seq<bool>) -> Seq<usize>
    decreases delivered.len(),
{
    if delivered.len() == 0 {
        Seq::empty()
    } else if delivered.last() {
        failed_peers(delivered.drop_last())
    } else {
        failed_peers(delivered.drop_last()).push((delivered.len() - 1) as usize)
    }
}

/// The course of one fan-out: one payload goes to each connected peer in turn, the peers
/// numbered from 0 in the order of the connection set. The caller writes to the peer that
/// `next` names and reports with `record` how the write went. A failed write is noted and
/// the fan-out goes on with the next peer: no peer is skipped, none is tried twice.
pub struct FanOut {
    peers: usize,
    delivered: Ghost<Seq<bool>>,
    attempted: usize,
    failed: Vec<usize>,
}

impl FanOut {
    /// How many peers the payload goes to.
    pub closed spec fn peers(&self) -> nat {
        self.peers as nat
    }

    /// How each write so far went, in the order of the peers.
    pub closed spec fn delivered(&self) -> Seq<bool> {
        self.delivered@
    }

    /// Whether the fan-out is well formed: no more writes are recorded than there are
    /// peers, and the failed peers are those whose write was recorded as failed. Every
    /// fan-out that this library hands out is.
    pub closed spec fn wf(&self) -> bool {
        &&& self.attempted == self.delivered@.len()
        &&& self.attempted <= self.peers
        &&& self.failed@ == failed_peers(self.delivered@)
    }

    /// A fan-out to `peers` peers, none of them tried yet.
    pub fn start(peers: usize) -> (r: FanOut)
        ensures
            r.wf(),
            r.peers() == peers,
            r.delivered() == Seq::<bool>::empty(),
    {
        FanOut { peers, delivered: Ghost(Seq::empty()), attempted: 0, failed: Vec::new() }
    }

    /// The peer to write to next, or `None` when every peer has had its write.
    pub fn next(&self) -> (r: Option<usize>)
        requires
            self.wf(),
        ensures
            r == if self.delivered().len() < self.peers() {
                Some(self.delivered().len() as usize)
            } else {
                None
            },
    {
        if self.attempted < self.peers {
            Some(self.attempted)
        } else {
            None
        }
    }

    /// Records how the write to the peer that `next` named went. Where a peer is left
    /// to write to, the fan-out moves on to the peer behind it, whether the write
    /// succeeded or not; where none is left, nothing changes.
    pub fn record(&mut self, delivered: bool)
        requires
            old(self).wf(),
        ensures
            final(self).wf(),
            final(self).peers() == old(self).peers(),
            final(self).delivered() == if old(self).delivered().len() < old(self).peers() {
                old(self).delivered().push(delivered)
            } else {
                old(self).delivered()
            },
    {
        if self.attempted < self.peers {
            if !delivered {
                self.failed.push(self.attempted);
            }
            proof {
                let before = self.delivered@;
                self.delivered = Ghost(before.push(delivered));
                assert(self.delivered@.drop_last() =~= before);
            }
            self.attempted = self.attempted + 1;
        }
    }

    /// Whether every peer has had its write.
    pub fn is_complete(&self) -> (r: bool)
        requires
            self.wf(),
        ensures
            r == (self.delivered().len() == self.peers()),
    {
        self.attempted == self.peers
    }

    /// The peers whose write failed, in rising order.
    pub fn failures(&self) -> (r: &Vec<usize>)
        requires
            self.wf(),
        ensures
            r@ == failed_peers(self.delivered()),
    {
        &self.failed
    }
}

} // verus!
