//! The plain message that shows the track while the race is run. It is edited
//! round by round, and posted anew when the chat has moved on without it.

use vstd::prelude::*;

verus! {

/// After this many rounds in which another message was the newest, the track
/// is posted anew.
pub const MAX_STALE_EDITS: usize = 5;

/// What a look at the channel found.
#[derive(Clone, Copy, PartialEq, Eq, Structural, Debug)]
pub enum LatestMessage {
    /// The channel could not be read.
    Unavailable,
    /// The channel holds no message.
    Nothing,
    /// The id of the newest message.
    Message(u64),
}

/// How the track is brought up to date.
#[derive(Clone, Copy, PartialEq, Eq, Structural, Debug)]
pub enum RefreshAction {
    /// Edit the message in place.
    Edit,
    /// Delete the message and post the track anew.
    Repost,
}

/// The message that shows the track.
#[derive(Clone, Copy, PartialEq, Eq, Structural, Debug)]
pub struct RaceProgressMessage {
    pub channel_id: u64,
    pub message_id: u64,
    pub stale_edits: usize,
}

impl RaceProgressMessage {
    /// The count of rounds gone stale after a look at the channel: one more
    /// if another message is the newest, none if this one is or the channel
    /// could not be read, and as many as before in an empty channel.
    pub open spec fn stale_after(self, latest: LatestMessage) -> nat {
        match latest {
            LatestMessage::Message(id) => if id != self.message_id {
                (self.stale_edits + 1) as nat
            } else {
                0
            },
            LatestMessage::Nothing => self.stale_edits as nat,
            LatestMessage::Unavailable => 0,
        }
    }

    /// Keeps track of a message that was just posted.
    pub fn posted(channel_id: u64, message_id: u64) -> (message: RaceProgressMessage)
        ensures
            message == (RaceProgressMessage { channel_id, message_id, stale_edits: 0 }),
    {
        RaceProgressMessage { channel_id, message_id, stale_edits: 0 }
    }

    /// Takes note of what a look at the channel found, and says whether the
    /// track has to be posted anew.
    pub fn needs_repost(&mut self, latest: LatestMessage) -> (repost: bool)
        requires
            old(self).stale_edits < usize::MAX,
        ensures
            final(self).stale_edits == old(self).stale_after(latest),
            final(self).channel_id == old(self).channel_id,
            final(self).message_id == old(self).message_id,
            repost == (final(self).stale_edits >= MAX_STALE_EDITS),
    {
        match latest {
            LatestMessage::Message(id) => {
                if id != self.message_id {
                    self.stale_edits += 1;
                } else {
                    self.stale_edits = 0;
                }
            },
            LatestMessage::Nothing => {},
            LatestMessage::Unavailable => {
                self.stale_edits = 0;
            },
        }
        self.stale_edits >= MAX_STALE_EDITS
    }

    /// Decides how the track is brought up to date after a look at the
    /// channel.
    pub fn refresh(&mut self, latest: LatestMessage) -> (action: RefreshAction)
        requires
            old(self).stale_edits < usize::MAX,
        ensures
            final(self).stale_edits == old(self).stale_after(latest),
            final(self).channel_id == old(self).channel_id,
            final(self).message_id == old(self).message_id,
            action == if old(self).stale_after(latest) >= MAX_STALE_EDITS {
                RefreshAction::Repost
            } else {
                RefreshAction::Edit
            },
    {
        if self.needs_repost(latest) {
            RefreshAction::Repost
        } else {
            RefreshAction::Edit
        }
    }

    /// Takes note that the track was posted anew as `message_id`.
    pub fn recreated(&mut self, message_id: u64)
        ensures
            *final(self) == (RaceProgressMessage {
                channel_id: old(self).channel_id,
                message_id,
                stale_edits: 0,
            }),
    {
        self.message_id = message_id;
        self.stale_edits = 0;
    }
}

} // verus!
