//! The debug threader: counts the messages it receives and re-posts nothing.

use vstd::prelude::*;

use crate::threader::{MessageBulk, ThreaderState};

verus! {

/// The threader used when no real destination is configured.
#[derive(Clone, Copy, Debug, PartialEq, Eq, Structural)]
pub struct DebugThreader {}

/// The debug threader's state after one item: a message adds one to the count,
/// the end marks the state completed.
pub open spec fn debug_step(s: ThreaderState, bulk: MessageBulk) -> ThreaderState {
    match bulk {
        MessageBulk::Continue(_) => ThreaderState {
            num_threaded_messages: (s.num_threaded_messages + 1) as u64,
            ..s
        },
        MessageBulk::End => ThreaderState { is_completed: true, ..s },
    }
}

/// The debug threader's state after a run of items; it stops at the first end.
pub open spec fn debug_run(s: ThreaderState, bulks: Seq<MessageBulk>) -> ThreaderState
    decreases bulks.len(),
{
    if bulks.len() == 0 {
        s
    } else if bulks[0] is End {
        debug_step(s, bulks[0])
    } else {
        debug_run(debug_step(s, bulks[0]), bulks.drop_first())
    }
}

impl DebugThreader {
    /// Handles one received item. The caller sends the new state to the controller
    /// after every item, and stops when this returns `true` (on the end marker).
    pub fn step(&self, state: &mut ThreaderState, bulk: &MessageBulk) -> (stop: bool)
        requires
            bulk is Continue ==> old(state).num_threaded_messages < u64::MAX,
        ensures
            *final(state) == debug_step(*old(state), *bulk),
            stop == (bulk is End),
            bulk is Continue ==> final(state).num_threaded_messages == old(state).num_threaded_messages + 1
                && final(state).is_completed == old(state).is_completed,
            bulk is End ==> final(state).num_threaded_messages == old(state).num_threaded_messages
                && final(state).is_completed,
    {
        match bulk {
            MessageBulk::Continue(_) => {
                state.num_threaded_messages = state.num_threaded_messages + 1;
                false
            },
            MessageBulk::End => {
                state.is_completed = true;
                true
            },
        }
    }
}

/// A message adds exactly one to the count and leaves the completed flag as it
/// was; only the end marker completes, and it leaves the count as it was.
pub proof fn lemma_debug_step_effect(s: ThreaderState, bulk: MessageBulk)
    requires
        bulk is Continue ==> s.num_threaded_messages < u64::MAX,
    ensures
        bulk is Continue ==> debug_step(s, bulk).num_threaded_messages == s.num_threaded_messages + 1
            && debug_step(s, bulk).is_completed == s.is_completed,
        bulk is End ==> debug_step(s, bulk).num_threaded_messages == s.num_threaded_messages
            && debug_step(s, bulk).is_completed,
{
}

/// A run of messages without the end marker leaves an uncompleted debug threader
/// uncompleted, with its count raised by the number of messages.
pub proof fn lemma_debug_messages_do_not_complete(s: ThreaderState, messages: Seq<MessageBulk>)
    requires
        !s.is_completed,
        forall|i: int| 0 <= i < messages.len() ==> #[trigger] messages[i] is Continue,
        s.num_threaded_messages + messages.len() <= u64::MAX,
    ensures
        !debug_run(s, messages).is_completed,
        debug_run(s, messages).num_threaded_messages == s.num_threaded_messages + messages.len(),
    decreases messages.len(),
{
    if messages.len() > 0 {
        assert(messages[0] is Continue);
        lemma_debug_step_effect(s, messages[0]);
        let rest = messages.drop_first();
        assert forall|i: int| 0 <= i < rest.len() implies #[trigger] rest[i] is Continue by {
            assert(rest[i] == messages[i + 1]);
        }
        lemma_debug_messages_do_not_complete(debug_step(s, messages[0]), rest);
    }
}

/// A run of `n` messages followed by the end leaves the debug threader completed
/// with its count raised by exactly `n`.
pub proof fn lemma_debug_threader_counts(s: ThreaderState, messages: Seq<MessageBulk>)
    requires
        forall|i: int| 0 <= i < messages.len() ==> #[trigger] messages[i] is Continue,
        s.num_threaded_messages + messages.len() <= u64::MAX,
    ensures
        debug_run(s, messages.push(MessageBulk::End)) == (ThreaderState {
            num_threaded_messages: (s.num_threaded_messages + messages.len()) as u64,
            is_completed: true,
        }),
    decreases messages.len(),
{
    let all = messages.push(MessageBulk::End);
    if messages.len() == 0 {
        assert(all[0] is End);
    } else {
        assert(all[0] == messages[0]);
        assert(all.drop_first() =~= messages.drop_first().push(MessageBulk::End));
        lemma_debug_threader_counts(debug_step(s, messages[0]), messages.drop_first());
    }
}

} // verus!
