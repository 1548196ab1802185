//! Threaders: the sinks that re-post grubbed messages somewhere else.

pub mod another_channel;
pub mod debug_threader;

use vstd::prelude::*;

use self::another_channel::AnotherChannelThreader;
use self::debug_threader::DebugThreader;

verus! {

/// What a threader reads of a Discord message.
#[derive(Debug)]
pub struct Message {
    /// The message's snowflake id; later messages have larger ids.
    pub id: u64,
    /// The message's position in its thread, when Discord reports one.
    pub position: Option<u64>,
    /// The guild the message was posted in, when it was posted in one.
    pub guild_id: Option<u64>,
    pub content: String,
    pub author_id: u64,
    pub author_name: String,
    pub author_avatar_url: Option<String>,
}

/// One item on the channel from the grubber to the threader.
#[derive(Debug)]
pub enum MessageBulk {
    Continue(Message),
    End,
}

/// Where the moved messages go, as chosen in the configuration UI.
#[derive(Clone, Copy, Debug, PartialEq, Eq, Structural)]
pub enum ThreaderConfiguration {
    AnotherChannel { channel_id: Option<u64> },
    NewThread {},
    NewForumPost {},
}

impl Default for ThreaderConfiguration {
    /// Moving to another channel, with no channel chosen yet.
    fn default() -> (c: Self)
        ensures
            c == (ThreaderConfiguration::AnotherChannel { channel_id: None }),
    {
        ThreaderConfiguration::AnotherChannel { channel_id: None }
    }
}

/// The threader that runs a configuration: a channel move when a channel has been
/// chosen, and otherwise (no channel yet, or a kind not yet implemented) the
/// debug threader.
pub open spec fn threader_for(c: ThreaderConfiguration) -> ThreaderVariant {
    match c {
        ThreaderConfiguration::AnotherChannel { channel_id: Some(channel_id) } => ThreaderVariant::AnotherChannel(
            AnotherChannelThreader { channel_id },
        ),
        _ => ThreaderVariant::Debug(DebugThreader {}),
    }
}

/// A channel move with a chosen channel runs the channel threader for exactly that
/// channel; every other configuration runs the debug threader.
pub proof fn lemma_threader_for_chosen_channel(c: ThreaderConfiguration)
    ensures
        c matches ThreaderConfiguration::AnotherChannel { channel_id: Some(id) } ==> threader_for(c)
            == ThreaderVariant::AnotherChannel(AnotherChannelThreader { channel_id: id }),
        !(c matches ThreaderConfiguration::AnotherChannel { channel_id: Some(_) }) ==> threader_for(c)
            == ThreaderVariant::Debug(DebugThreader {}),
        threader_for(c) matches ThreaderVariant::AnotherChannel(t) ==> c
            == (ThreaderConfiguration::AnotherChannel { channel_id: Some(t.channel_id) }),
{
}

impl ThreaderConfiguration {
    /// Whether this is a move to another channel (chosen or not).
    pub fn is_another_channel(&self) -> (r: bool)
        ensures
            r == (self is AnotherChannel),
    {
        match self {
            ThreaderConfiguration::AnotherChannel { .. } => true,
            _ => false,
        }
    }

    /// Picks the threader that runs this configuration.
    pub fn create_threader(&self) -> (t: ThreaderVariant)
        ensures
            t == threader_for(*self),
            *self matches ThreaderConfiguration::AnotherChannel { channel_id: Some(c) } ==> t
                == ThreaderVariant::AnotherChannel(AnotherChannelThreader { channel_id: c }),
            !(*self matches ThreaderConfiguration::AnotherChannel { channel_id: Some(_) }) ==> t
                == ThreaderVariant::Debug(DebugThreader {}),
    {
        match self {
            ThreaderConfiguration::AnotherChannel { channel_id } => {
                match channel_id {
                    Some(channel_id) => ThreaderVariant::AnotherChannel(
                        AnotherChannelThreader { channel_id: *channel_id },
                    ),
                    None => ThreaderVariant::Debug(DebugThreader {}),
                }
            },
            _ => ThreaderVariant::Debug(DebugThreader {}),
        }
    }

    /// Chooses `channel_id` as the destination: the configuration becomes a move to
    /// that channel whatever it was. Returns whether it already was a channel move
    /// (when it was not, the caller reports the mismatch).
    pub fn change_channel(&mut self, channel_id: u64) -> (was_another_channel: bool)
        ensures
            was_another_channel == (*old(self) is AnotherChannel),
            *final(self) == (ThreaderConfiguration::AnotherChannel { channel_id: Some(channel_id) }),
    {
        let was = self.is_another_channel();
        *self = ThreaderConfiguration::AnotherChannel { channel_id: Some(channel_id) };
        was
    }
}

/// One of the threaders, chosen by `ThreaderConfiguration::create_threader`.
#[derive(Clone, Copy, Debug, PartialEq, Eq, Structural)]
pub enum ThreaderVariant {
    AnotherChannel(AnotherChannelThreader),
    Debug(DebugThreader),
}

/// What a threader reports back to the controller.
#[derive(Clone, Copy, Debug)]
pub enum ThreaderMessage {
    StateUpdate(ThreaderState),
}

/// A threader's progress.
#[derive(Clone, Copy, Debug, PartialEq, Eq, Structural)]
pub struct ThreaderState {
    pub num_threaded_messages: u64,
    pub is_completed: bool,
}

impl ThreaderState {
    /// The state a threader starts in: nothing threaded, not completed.
    pub fn new() -> (s: ThreaderState)
        ensures
            s.num_threaded_messages == 0,
            !s.is_completed,
    {
        ThreaderState { num_threaded_messages: 0, is_completed: false }
    }
}

} // verus!
