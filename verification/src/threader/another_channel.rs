//! The threader that re-posts each message in another channel through a webhook.

use vstd::prelude::*;

use crate::threader::{Message, MessageBulk, ThreaderState};

verus! {

/// Re-posts messages into the channel `channel_id`.
#[derive(Clone, Copy, Debug, PartialEq, Eq, Structural)]
pub struct AnotherChannelThreader {
    pub channel_id: u64,
}

/// What the webhook posts for one message.
#[derive(Debug)]
pub struct WebhookPayload {
    pub username: String,
    pub avatar_url: String,
    pub content: String,
}

impl AnotherChannelThreader {
    /// The name of the webhook created for the move `id`: `nyaodle-threader-<id>`.
    pub fn webhook_name(id: &str) -> (name: String)
        ensures
            name@ == "nyaodle-threader-"@ + id@,
    {
        let mut name = String::from_str("nyaodle-threader-");
        name.append(id);
        name
    }

    /// Handles one receive from the grubber's channel: a message is handed back to
    /// be re-posted and the state is left alone; the end marker, or a closed channel
    /// (`None`), marks the state completed, after which the caller reports it and
    /// stops.
    pub fn step(&self, state: &mut ThreaderState, received: Option<MessageBulk>) -> (relay: Option<Message>)
        ensures
            match received {
                Some(MessageBulk::Continue(m)) => relay == Some(m) && *final(state) == *old(state),
                _ => relay is None && *final(state) == (ThreaderState { is_completed: true, ..*old(state) }),
            },
    {
        match received {
            Some(MessageBulk::Continue(m)) => Some(m),
            _ => {
                state.is_completed = true;
                None
            },
        }
    }

    /// The webhook post for `message`: posted under the author's nickname in the
    /// guild when there is one, else the author's name; with the author's avatar, or
    /// an empty avatar URL when there is none; and with the message's content.
    pub fn webhook_payload(message: Message, nick: Option<String>) -> (p: WebhookPayload)
        ensures
            p.username@ == (match nick {
                Some(n) => n@,
                None => message.author_name@,
            }),
            p.avatar_url@ == (match message.author_avatar_url {
                Some(u) => u@,
                None => Seq::<char>::empty(),
            }),
            p.content == message.content,
    {
        let username = match nick {
            Some(n) => n,
            None => message.author_name,
        };
        let avatar_url = match message.author_avatar_url {
            Some(u) => u,
            None => String::new(),
        };
        WebhookPayload { username, avatar_url, content: message.content }
    }
}

} // verus!
