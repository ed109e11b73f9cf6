//! The channels in which a race is going on. A channel hosts one race at a
//! time: it is claimed when a race opens and released when the race is over.

use std::collections::HashSet;
use vstd::prelude::*;

verus! {

/// The channels that are busy.
pub struct ActiveChannels {
    channels: HashSet<u64>,
}

impl View for ActiveChannels {
    type V = Set<u64>;

    closed spec fn view(&self) -> Set<u64> {
        self.channels@
    }
}

impl ActiveChannels {
    /// No channel is busy.
    pub fn new() -> (registry: ActiveChannels)
        ensures
            registry@ == Set::<u64>::empty(),
    {
        ActiveChannels { channels: HashSet::new() }
    }

    /// Whether a race is going on in `channel_id`.
    pub fn is_active(&self, channel_id: u64) -> (active: bool)
        ensures
            active == self@.contains(channel_id),
    {
        self.channels.contains(&channel_id)
    }

    /// Claims `channel_id` for a race. The claim succeeds exactly when the
    /// channel was free, and the channel is busy afterwards either way.
    pub fn claim(&mut self, channel_id: u64) -> (claimed: bool)
        ensures
            claimed == !old(self)@.contains(channel_id),
            final(self)@ == old(self)@.insert(channel_id),
    {
        if self.channels.contains(&channel_id) {
            assert(self@ =~= old(self)@.insert(channel_id));
            return false;
        }
        self.channels.insert(channel_id);
        true
    }

    /// Releases `channel_id`. The channel is free afterwards, whether or not
    /// it was busy.
    pub fn release(&mut self, channel_id: u64)
        ensures
            final(self)@ == old(self)@.remove(channel_id),
    {
        self.channels.remove(&channel_id);
    }
}

/// A channel that was claimed and then released is as free as before, and no
/// other channel is touched.
pub proof fn lemma_claim_then_release(busy: Set<u64>, channel_id: u64)
    requires
        !busy.contains(channel_id),
    ensures
        busy.insert(channel_id).remove(channel_id) == busy,
{
    assert(busy.insert(channel_id).remove(channel_id) =~= busy);
}

} // verus!
