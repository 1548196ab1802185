//! The move controller: joins a grubber and a threader, forwards the collected
//! messages, and keeps the combined progress that the UI shows.

use vstd::prelude::*;

use crate::grubber::GrubberMessage;
use crate::threader::{MessageBulk, ThreaderMessage};

verus! {

/// The combined progress of one move.
#[derive(Clone, Copy, Debug, PartialEq, Eq, Structural)]
pub struct NyaodleState {
    pub num_total_messages: u64,
    pub num_grubbed_messages: u64,
    pub num_threaded_messages: u64,
    pub is_grubbed: bool,
    pub is_threaded: bool,
    pub is_completed: bool,
}

/// Something the controller receives, from the grubber or from the threader.
#[derive(Debug)]
pub enum ControllerEvent {
    Grubber(GrubberMessage),
    Threader(ThreaderMessage),
}

/// What the controller does after an event.
#[derive(Debug)]
pub enum ControllerAction {
    /// Send the new state to the progress watcher, then stop when `finished`.
    Report { finished: bool },
    /// Hand these messages, in order, to the threader.
    Forward(Vec<MessageBulk>),
}

/// A move is finished once both its grubber and its threader are done.
pub open spec fn is_finished(s: NyaodleState) -> bool {
    s.is_grubbed && s.is_threaded
}

/// The state of a move before any report.
pub open spec fn initial_nyaodle_state() -> NyaodleState {
    NyaodleState {
        num_total_messages: 0,
        num_grubbed_messages: 0,
        num_threaded_messages: 0,
        is_grubbed: false,
        is_threaded: false,
        is_completed: false,
    }
}

/// The state after an event: a grubber report replaces the grubber's counts and
/// flag, a threader report replaces the threader's, a message transfer changes
/// nothing.
pub open spec fn next_state(s: NyaodleState, e: ControllerEvent) -> NyaodleState {
    match e {
        ControllerEvent::Grubber(GrubberMessage::StateUpdate(g)) => NyaodleState {
            num_total_messages: g.num_total_messages,
            num_grubbed_messages: g.num_grubbed_messages,
            is_grubbed: g.is_completed,
            ..s
        },
        ControllerEvent::Grubber(GrubberMessage::MessageTranfer(_)) => s,
        ControllerEvent::Threader(ThreaderMessage::StateUpdate(t)) => NyaodleState {
            num_threaded_messages: t.num_threaded_messages,
            is_threaded: t.is_completed,
            ..s
        },
    }
}

/// A fresh state: nothing counted, nothing done.
pub fn new_nyaodle_state() -> (s: NyaodleState)
    ensures
        s == initial_nyaodle_state(),
{
    NyaodleState {
        num_total_messages: 0,
        num_grubbed_messages: 0,
        num_threaded_messages: 0,
        is_grubbed: false,
        is_threaded: false,
        is_completed: false,
    }
}

/// Whether the move `id` is finished with the state as it now stands (the state
/// is only read; the id is for the caller's log).
pub fn update_state(id: &str, new_state: &mut NyaodleState) -> (finished: bool)
    ensures
        *final(new_state) == *old(new_state),
        finished == is_finished(*old(new_state)),
{
    new_state.is_grubbed && new_state.is_threaded
}

/// Handles one event of the move `id`: updates the state, and says whether to
/// report it (and stop, once finished) or to forward messages to the threader.
pub fn nyaodle_step(id: &str, state: &mut NyaodleState, event: ControllerEvent) -> (action: ControllerAction)
    ensures
        *final(state) == next_state(*old(state), event),
        match event {
            ControllerEvent::Grubber(GrubberMessage::MessageTranfer(bulks)) => action == ControllerAction::Forward(bulks),
            _ => action == (ControllerAction::Report { finished: is_finished(*final(state)) }),
        },
{
    match event {
        ControllerEvent::Grubber(GrubberMessage::StateUpdate(g)) => {
            state.num_total_messages = g.num_total_messages;
            state.num_grubbed_messages = g.num_grubbed_messages;
            state.is_grubbed = g.is_completed;
            let finished = update_state(id, state);
            ControllerAction::Report { finished }
        },
        ControllerEvent::Grubber(GrubberMessage::MessageTranfer(bulks)) => ControllerAction::Forward(bulks),
        ControllerEvent::Threader(ThreaderMessage::StateUpdate(t)) => {
            state.num_threaded_messages = t.num_threaded_messages;
            state.is_threaded = t.is_completed;
            let finished = update_state(id, state);
            ControllerAction::Report { finished }
        },
    }
}

/// Marks the move completed once the event loop has stopped; the caller sends this
/// last state.
pub fn nyaodle_complete(state: &mut NyaodleState)
    ensures
        *final(state) == (NyaodleState { is_completed: true, ..*old(state) }),
{
    state.is_completed = true;
}

/// Once the grubber and the threader have each reported completion, in either
/// order, the move is finished; and reports of one side never undo the other
/// side's completion.
pub proof fn lemma_finished_after_both_complete(
    s: NyaodleState,
    g: crate::grubber::GrubberState,
    t: crate::threader::ThreaderState,
)
    requires
        g.is_completed,
        t.is_completed,
    ensures
        is_finished(
            next_state(
                next_state(s, ControllerEvent::Grubber(GrubberMessage::StateUpdate(g))),
                ControllerEvent::Threader(ThreaderMessage::StateUpdate(t)),
            ),
        ),
        is_finished(
            next_state(
                next_state(s, ControllerEvent::Threader(ThreaderMessage::StateUpdate(t))),
                ControllerEvent::Grubber(GrubberMessage::StateUpdate(g)),
            ),
        ),
{
}

/// A move is never finished before its grubber has reported completion, nor before
/// its threader has.
pub proof fn lemma_not_finished_without_both(s: NyaodleState, e: ControllerEvent)
    ensures
        !s.is_threaded && !(e matches ControllerEvent::Threader(ThreaderMessage::StateUpdate(t)) && t.is_completed)
            ==> !is_finished(next_state(s, e)),
        !s.is_grubbed && !(e matches ControllerEvent::Grubber(GrubberMessage::StateUpdate(g)) && g.is_completed)
            ==> !is_finished(next_state(s, e)),
{
}

/// Whether the controller reports after `e` (every event but a message transfer).
pub open spec fn is_report(e: ControllerEvent) -> bool {
    !(e matches ControllerEvent::Grubber(GrubberMessage::MessageTranfer(_)))
}

/// The controller's state after a run of events.
pub open spec fn controller_run(s: NyaodleState, events: Seq<ControllerEvent>) -> NyaodleState
    decreases events.len(),
{
    if events.len() == 0 {
        s
    } else {
        controller_run(next_state(s, events[0]), events.drop_first())
    }
}

/// The last grubber report among `events`.
pub open spec fn latest_grubber_report(events: Seq<ControllerEvent>) -> Option<crate::grubber::GrubberState>
    decreases events.len(),
{
    if events.len() == 0 {
        None
    } else {
        match latest_grubber_report(events.drop_first()) {
            Some(g) => Some(g),
            None => match events[0] {
                ControllerEvent::Grubber(GrubberMessage::StateUpdate(g)) => Some(g),
                _ => None,
            },
        }
    }
}

/// The last threader report among `events`.
pub open spec fn latest_threader_report(events: Seq<ControllerEvent>) -> Option<crate::threader::ThreaderState>
    decreases events.len(),
{
    if events.len() == 0 {
        None
    } else {
        match latest_threader_report(events.drop_first()) {
            Some(t) => Some(t),
            None => match events[0] {
                ControllerEvent::Threader(ThreaderMessage::StateUpdate(t)) => Some(t),
                _ => None,
            },
        }
    }
}

/// The number of progress reports among `events`.
pub open spec fn state_update_count(events: Seq<ControllerEvent>) -> nat
    decreases events.len(),
{
    if events.len() == 0 {
        0
    } else {
        state_update_count(events.drop_first()) + if is_report(events[0]) { 1nat } else { 0nat }
    }
}

/// The states the controller loop sends for a run of events, starting from `s`:
/// the new state after each report, until one is finished; then that state and
/// the completed state (`nyaodle_complete`), after which the loop has stopped.
pub open spec fn controller_sent(s: NyaodleState, events: Seq<ControllerEvent>) -> Seq<NyaodleState>
    decreases events.len(),
{
    if events.len() == 0 {
        Seq::empty()
    } else {
        let e = events[0];
        let s2 = next_state(s, e);
        if !is_report(e) {
            controller_sent(s2, events.drop_first())
        } else if is_finished(s2) {
            seq![s2, NyaodleState { is_completed: true, ..s2 }]
        } else {
            seq![s2] + controller_sent(s2, events.drop_first())
        }
    }
}

/// After any run of events, the controller's grubber fields are those of the last
/// grubber report (or unchanged when there was none), and its threader fields those
/// of the last threader report (or unchanged); the completed flag is untouched.
pub proof fn lemma_state_mirrors_latest_reports(s: NyaodleState, events: Seq<ControllerEvent>)
    ensures
        ({
            let r = controller_run(s, events);
            &&& match latest_grubber_report(events) {
                Some(g) => r.num_total_messages == g.num_total_messages
                    && r.num_grubbed_messages == g.num_grubbed_messages && r.is_grubbed == g.is_completed,
                None => r.num_total_messages == s.num_total_messages
                    && r.num_grubbed_messages == s.num_grubbed_messages && r.is_grubbed == s.is_grubbed,
            }
            &&& match latest_threader_report(events) {
                Some(t) => r.num_threaded_messages == t.num_threaded_messages && r.is_threaded == t.is_completed,
                None => r.num_threaded_messages == s.num_threaded_messages && r.is_threaded == s.is_threaded,
            }
            &&& r.is_completed == s.is_completed
        }),
    decreases events.len(),
{
    if events.len() > 0 {
        lemma_state_mirrors_latest_reports(next_state(s, events[0]), events.drop_first());
    }
}

/// From a state that is not completed, the controller sends at most one completed
/// state, and only as its last; that state has both sides done; and the states sent
/// before it are one per report received: exactly one per report when no completed
/// state was sent, and otherwise one per report up to the event that finished the
/// move.
pub proof fn lemma_one_completed_state_last(s: NyaodleState, events: Seq<ControllerEvent>)
    requires
        !s.is_completed,
    ensures
        ({
            let sent = controller_sent(s, events);
            &&& forall|i: int| 0 <= i < sent.len() && #[trigger] sent[i].is_completed ==> i == sent.len() - 1
            &&& sent.len() > 0 && sent.last().is_completed ==> sent.last().is_grubbed && sent.last().is_threaded
            &&& !(sent.len() > 0 && sent.last().is_completed) ==> sent.len() == state_update_count(events)
            &&& sent.len() > 0 && sent.last().is_completed ==> exists|k: int|
                1 <= k <= events.len() && sent.len() == state_update_count(#[trigger] events.take(k)) + 1
                    && is_finished(controller_run(s, events.take(k)))
        }),
    decreases events.len(),
{
    if events.len() > 0 {
        let e = events[0];
        let s2 = next_state(s, e);
        let rest = events.drop_first();
        let sent = controller_sent(s, events);
        assert(!s2.is_completed);
        lemma_one_completed_state_last(s2, rest);
        let sent2 = controller_sent(s2, rest);
        if !is_report(e) {
            assert(sent == sent2);
            if sent.len() > 0 && sent.last().is_completed {
                let k2 = choose|k: int|
                    1 <= k <= rest.len() && sent2.len() == state_update_count(#[trigger] rest.take(k)) + 1
                        && is_finished(controller_run(s2, rest.take(k)));
                assert(events.take(k2 + 1).drop_first() =~= rest.take(k2));
                assert(events.take(k2 + 1)[0] == e);
                assert(sent.len() == state_update_count(events.take(k2 + 1)) + 1);
            }
        } else if is_finished(s2) {
            assert(events.take(1).drop_first() =~= Seq::<ControllerEvent>::empty());
            assert(events.take(1)[0] == e);
            assert(state_update_count(events.take(1).drop_first()) == 0);
            assert(controller_run(s2, events.take(1).drop_first()) == s2);
            assert(sent.len() == state_update_count(events.take(1)) + 1);
        } else {
            assert(sent =~= seq![s2] + sent2);
            assert forall|i: int| 0 <= i < sent.len() && #[trigger] sent[i].is_completed implies i == sent.len() - 1 by {
                if i > 0 {
                    assert(sent[i] == sent2[i - 1]);
                }
            }
            if sent.len() > 0 && sent.last().is_completed {
                assert(sent2.len() > 0 && sent2.last() == sent.last());
                let k2 = choose|k: int|
                    1 <= k <= rest.len() && sent2.len() == state_update_count(#[trigger] rest.take(k)) + 1
                        && is_finished(controller_run(s2, rest.take(k)));
                assert(events.take(k2 + 1).drop_first() =~= rest.take(k2));
                assert(events.take(k2 + 1)[0] == e);
                assert(sent.len() == state_update_count(events.take(k2 + 1)) + 1);
            } else if sent2.len() > 0 {
                assert(sent2.last() == sent.last());
            }
        }
    }
}

/// Once the move is finished after some prefix of the events (starting from an
/// unfinished state), the states sent end with the completed state.
proof fn lemma_finished_prefix_completes(s: NyaodleState, events: Seq<ControllerEvent>, j: int)
    requires
        !is_finished(s),
        1 <= j <= events.len(),
        is_finished(controller_run(s, events.take(j))),
    ensures
        controller_sent(s, events).len() > 0,
        controller_sent(s, events).last().is_completed,
    decreases events.len(),
{
    let e = events[0];
    let s2 = next_state(s, e);
    let rest = events.drop_first();
    assert(events.take(j).drop_first() =~= rest.take(j - 1));
    assert(events.take(j)[0] == e);
    assert(controller_run(s, events.take(j)) == controller_run(s2, rest.take(j - 1)));
    if !is_report(e) {
        assert(s2 == s);
        if j == 1 {
            assert(rest.take(0) =~= Seq::<ControllerEvent>::empty());
        }
        lemma_finished_prefix_completes(s2, rest, j - 1);
    } else if is_finished(s2) {
    } else {
        if j == 1 {
            assert(rest.take(0) =~= Seq::<ControllerEvent>::empty());
        }
        lemma_finished_prefix_completes(s2, rest, j - 1);
        assert(controller_sent(s, events) =~= seq![s2] + controller_sent(s2, rest));
    }
}

/// Under any interleaving of events: once, after some prefix of them, the last
/// grubber report and the last threader report both say completed, the controller
/// has sent the completed state (as its last).
pub proof fn lemma_completes_under_any_interleaving(s: NyaodleState, events: Seq<ControllerEvent>, j: int)
    requires
        !is_finished(s),
        1 <= j <= events.len(),
        latest_grubber_report(events.take(j)) matches Some(g) && g.is_completed,
        latest_threader_report(events.take(j)) matches Some(t) && t.is_completed,
    ensures
        controller_sent(s, events).len() > 0,
        controller_sent(s, events).last().is_completed,
{
    lemma_state_mirrors_latest_reports(s, events.take(j));
    lemma_finished_prefix_completes(s, events, j);
}

} // verus!
