//! Grubbers: the sources that collect the messages to move.

pub mod channel_subsequent;

use vstd::prelude::*;

use self::channel_subsequent::ChannelSubsequent;
use crate::threader::MessageBulk;

verus! {

/// What the user asked to move.
#[derive(Clone, Copy, Debug, PartialEq, Eq, Structural)]
pub enum NyaodleRequest {
    ChannelSubsequent(ChannelSubsequent),
}

/// What a grubber reports to the controller.
#[derive(Debug)]
pub enum GrubberMessage {
    StateUpdate(GrubberState),
    MessageTranfer(Vec<MessageBulk>),
}

/// A grubber's progress: how many messages it expects and has collected.
#[derive(Clone, Copy, Debug, PartialEq, Eq, Structural)]
pub struct GrubberState {
    pub num_total_messages: u64,
    pub num_grubbed_messages: u64,
    pub is_completed: bool,
}

} // verus!
