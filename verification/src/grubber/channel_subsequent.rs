//! Collects a message and every later message of its channel, up to the last one
//! present when the move started.

use vstd::prelude::*;

use crate::grubber::{GrubberMessage, GrubberState};
use crate::threader::{Message, MessageBulk};

verus! {

/// The message the move starts from, and its channel.
#[derive(Clone, Copy, Debug, PartialEq, Eq, Structural)]
pub struct ChannelSubsequent {
    pub message_id: u64,
    pub channel_id: u64,
}

/// `s` is in ascending order of message id.
pub open spec fn sorted_by_id(s: Seq<Message>) -> bool {
    forall|i: int, j: int| 0 <= i <= j < s.len() ==> s[i].id <= s[j].id
}

/// `taken` is what is kept of a fetched page whose messages, sorted by id, are
/// `sorted`: its longest prefix of messages with id at most `end_id`.
pub open spec fn is_sorted_cut(
    fetched: Seq<Message>,
    end_id: u64,
    sorted: Seq<Message>,
    taken: Seq<Message>,
) -> bool {
    &&& sorted.to_multiset() == fetched.to_multiset()
    &&& sorted_by_id(sorted)
    &&& taken.len() <= sorted.len()
    &&& taken == sorted.take(taken.len() as int)
    &&& forall|i: int| 0 <= i < taken.len() ==> #[trigger] taken[i].id <= end_id
    &&& taken.len() < sorted.len() ==> sorted[taken.len() as int].id > end_id
}

/// The messages a page keeps: those up to the last message `end_id`.
pub open spec fn kept_before(end_id: u64) -> spec_fn(Message) -> bool {
    |m: Message| m.id <= end_id
}

proof fn lemma_filter_all(s: Seq<Message>, p: spec_fn(Message) -> bool)
    requires
        forall|i: int| 0 <= i < s.len() ==> p(#[trigger] s[i]),
    ensures
        s.filter(p) == s,
    decreases s.len(),
{
    reveal(Seq::filter);
    if s.len() > 0 {
        lemma_filter_all(s.drop_last(), p);
        assert(s.drop_last().push(s.last()) =~= s);
    }
}

proof fn lemma_filter_none(s: Seq<Message>, p: spec_fn(Message) -> bool)
    requires
        forall|i: int| 0 <= i < s.len() ==> !p(#[trigger] s[i]),
    ensures
        s.filter(p).len() == 0,
    decreases s.len(),
{
    reveal(Seq::filter);
    if s.len() > 0 {
        lemma_filter_none(s.drop_last(), p);
    }
}

/// Removing one element takes it out of a filter's count, if it passed.
proof fn lemma_filter_len_remove(b: Seq<Message>, i: int, p: spec_fn(Message) -> bool)
    requires
        0 <= i < b.len(),
    ensures
        b.filter(p).len() == b.remove(i).filter(p).len() + (if p(b[i]) { 1int } else { 0int }),
{
    let t = b.take(i);
    let r = b.skip(i + 1);
    assert(b =~= t + (seq![b[i]] + r));
    assert(b.remove(i) =~= t + r);
    Seq::filter_distributes_over_add(t, seq![b[i]] + r, p);
    Seq::filter_distributes_over_add(t, r, p);
    r.lemma_filter_prepend(b[i], p);
}

/// Reordering a sequence does not change how many of its elements pass a filter.
proof fn lemma_filter_len_perm(a: Seq<Message>, b: Seq<Message>, p: spec_fn(Message) -> bool)
    requires
        a.to_multiset() == b.to_multiset(),
    ensures
        a.filter(p).len() == b.filter(p).len(),
    decreases a.len(),
{
    broadcast use vstd::seq_lib::group_to_multiset_ensures;
    broadcast use vstd::multiset::group_multiset_axioms;

    reveal(Seq::filter);
    if a.len() == 0 {
        assert(b.to_multiset().len() == 0);
        assert(b.len() == 0);
    } else {
        let x = a.last();
        let a0 = a.drop_last();
        assert(a0.push(x) =~= a);
        vstd::seq_lib::to_multiset_build(a0, x);
        assert(a.to_multiset().count(x) > 0);
        assert(b.to_multiset().contains(x));
        assert(b.contains(x));
        let i = choose|i: int| 0 <= i < b.len() && b[i] == x;
        vstd::seq_lib::to_multiset_remove(b, i);
        assert(b.remove(i).to_multiset() =~= a0.to_multiset());
        lemma_filter_len_perm(a0, b.remove(i), p);
        a0.lemma_filter_len_push(p, x);
        lemma_filter_len_remove(b, i, p);
    }
}

/// In a sequence sorted by id, the messages up to `end_id` are exactly the first
/// `k` when the `k`-th is past it.
proof fn lemma_cut_is_filter(sorted: Seq<Message>, end_id: u64, k: int)
    requires
        sorted_by_id(sorted),
        0 <= k <= sorted.len(),
        forall|i: int| 0 <= i < k ==> #[trigger] sorted[i].id <= end_id,
        k < sorted.len() ==> sorted[k].id > end_id,
    ensures
        sorted.filter(kept_before(end_id)).len() == k,
{
    let p = kept_before(end_id);
    let t = sorted.take(k);
    let r = sorted.skip(k);
    assert(sorted =~= t + r);
    Seq::filter_distributes_over_add(t, r, p);
    lemma_filter_all(t, p);
    assert forall|i: int| 0 <= i < r.len() implies !p(#[trigger] r[i]) by {
        assert(sorted[k].id <= sorted[k + i].id);
    }
    lemma_filter_none(r, p);
}

/// Calls `slice::sort_by_key` with the message id as the key.
/// Claimed: afterwards the messages are the same ones, in ascending order of id.
#[verifier::external_body]
fn sort_by_message_id(messages: &mut Vec<Message>)
    ensures
        final(messages)@.to_multiset() == old(messages)@.to_multiset(),
        sorted_by_id(final(messages)@),
{
    messages.sort_by_key(|m| m.id)
}

/// The state a move starts in: the start message counts as both expected and
/// collected.
pub fn initial_state() -> (s: GrubberState)
    ensures
        s == (GrubberState { num_total_messages: 1, num_grubbed_messages: 1, is_completed: false }),
{
    GrubberState { num_total_messages: 1, num_grubbed_messages: 1, is_completed: false }
}

/// Re-estimates the number of messages to move from the positions of the current
/// and the last message: `end - pointer + collected + 1`, and never less than what
/// was collected. Without both positions nothing changes and `false` is returned
/// (the caller reports that no estimate could be made).
pub fn estimate_total(
    state: &mut GrubberState,
    pointer_position: Option<u64>,
    end_position: Option<u64>,
) -> (estimated: bool)
    requires
        pointer_position matches Some(p) ==> end_position matches Some(e) ==> p <= e && e - p
            + old(state).num_grubbed_messages + 1 <= u64::MAX,
    ensures
        estimated == (pointer_position is Some && end_position is Some),
        estimated ==> ({
            let approx = end_position.unwrap() - pointer_position.unwrap()
                + old(state).num_grubbed_messages + 1;
            final(state).num_total_messages == if approx >= old(state).num_grubbed_messages {
                approx
            } else {
                old(state).num_grubbed_messages as int
            }
        }),
        !estimated ==> final(state).num_total_messages == old(state).num_total_messages,
        final(state).num_grubbed_messages == old(state).num_grubbed_messages,
        final(state).is_completed == old(state).is_completed,
{
    match (pointer_position, end_position) {
        (Some(pointer), Some(end)) => {
            let approximate_total = end - pointer + state.num_grubbed_messages + 1;
            state.num_total_messages = if approximate_total >= state.num_grubbed_messages {
                approximate_total
            } else {
                state.num_grubbed_messages
            };
            true
        },
        _ => false,
    }
}

/// Checks whether the collection has reached the last message. When it has, the
/// total becomes exactly what was collected and the state is completed; the caller
/// then sends the end marker and the final state, and stops.
pub fn check_caught_up(state: &mut GrubberState, pointer_id: u64, end_id: u64) -> (done: bool)
    ensures
        done == (pointer_id == end_id),
        done ==> *final(state) == (GrubberState {
            num_total_messages: old(state).num_grubbed_messages,
            num_grubbed_messages: old(state).num_grubbed_messages,
            is_completed: true,
        }),
        !done ==> *final(state) == *old(state),
{
    if pointer_id == end_id {
        state.num_total_messages = state.num_grubbed_messages;
        state.is_completed = true;
        true
    } else {
        false
    }
}

/// Takes in a page of messages fetched after the current one: sorts it by id,
/// keeps the messages up to the last message `end_id`, and counts them as
/// collected. The kept messages are returned in order; the last of them is the new
/// current message.
pub fn absorb_page(state: &mut GrubberState, fetched: Vec<Message>, end_id: u64) -> (taken: Vec<Message>)
    requires
        exists|i: int| 0 <= i < fetched@.len() && #[trigger] fetched@[i].id <= end_id,
        old(state).num_grubbed_messages + fetched@.filter(kept_before(end_id)).len() <= u64::MAX,
    ensures
        taken@.len() > 0,
        taken@.len() == fetched@.filter(kept_before(end_id)).len(),
        exists|sorted: Seq<Message>| #[trigger] is_sorted_cut(fetched@, end_id, sorted, taken@),
        final(state).num_grubbed_messages == old(state).num_grubbed_messages + taken@.len(),
        final(state).num_total_messages == old(state).num_total_messages,
        final(state).is_completed == old(state).is_completed,
{
    broadcast use vstd::seq_lib::group_to_multiset_ensures;

    let ghost fetched_view = fetched@;
    let mut sorted = fetched;
    sort_by_message_id(&mut sorted);
    let ghost sorted_view = sorted@;
    let n = sorted.len();
    let mut k: usize = 0;
    while k < n && sorted[k].id <= end_id
        invariant
            n == sorted@.len(),
            sorted@ == sorted_view,
            k <= n,
            forall|i: int| 0 <= i < k ==> #[trigger] sorted_view[i].id <= end_id,
        decreases n - k,
    {
        k = k + 1;
    }
    proof {
        let j = choose|i: int| 0 <= i < fetched_view.len() && #[trigger] fetched_view[i].id <= end_id;
        assert(fetched_view.to_multiset().contains(fetched_view[j]));
        assert(sorted_view.to_multiset().contains(fetched_view[j]));
        assert(sorted_view.contains(fetched_view[j]));
        let m = choose|m: int| 0 <= m < sorted_view.len() && sorted_view[m] == fetched_view[j];
        assert(sorted_view[0].id <= sorted_view[m].id);
        assert(n == fetched_view.len()) by {
            assert(sorted_view.to_multiset().len() == fetched_view.to_multiset().len());
        }
    }
    let mut taken = sorted;
    taken.truncate(k);
    proof {
        assert(taken@ =~= sorted_view.take(k as int));
        assert(is_sorted_cut(fetched_view, end_id, sorted_view, taken@));
        lemma_cut_is_filter(sorted_view, end_id, k as int);
        lemma_filter_len_perm(sorted_view, fetched_view, kept_before(end_id));
    }
    state.num_grubbed_messages = state.num_grubbed_messages + k as u64;
    taken
}

/// The number of messages in a run of bulks.
pub open spec fn continue_count(bs: Seq<MessageBulk>) -> nat
    decreases bs.len(),
{
    if bs.len() == 0 {
        0
    } else {
        continue_count(bs.drop_last()) + if bs.last() is Continue { 1nat } else { 0nat }
    }
}

/// The number of end markers in a run of bulks.
pub open spec fn end_count(bs: Seq<MessageBulk>) -> nat
    decreases bs.len(),
{
    if bs.len() == 0 {
        0
    } else {
        end_count(bs.drop_last()) + if bs.last() is End { 1nat } else { 0nat }
    }
}

/// The progress reports among what a grubber sent, in order.
pub open spec fn reports(h: Seq<GrubberMessage>) -> Seq<GrubberState>
    decreases h.len(),
{
    if h.len() == 0 {
        Seq::empty()
    } else {
        match h.last() {
            GrubberMessage::StateUpdate(s) => reports(h.drop_last()).push(s),
            _ => reports(h.drop_last()),
        }
    }
}

/// The number of messages a grubber forwarded.
pub open spec fn forwarded_count(h: Seq<GrubberMessage>) -> nat
    decreases h.len(),
{
    if h.len() == 0 {
        0
    } else {
        forwarded_count(h.drop_last()) + match h.last() {
            GrubberMessage::MessageTranfer(b) => continue_count(b@),
            _ => 0nat,
        }
    }
}

/// The number of end markers a grubber sent.
pub open spec fn end_markers(h: Seq<GrubberMessage>) -> nat
    decreases h.len(),
{
    if h.len() == 0 {
        0
    } else {
        end_markers(h.drop_last()) + match h.last() {
            GrubberMessage::MessageTranfer(b) => end_count(b@),
            _ => 0nat,
        }
    }
}

/// What holds of everything a grubber has sent: its first report counts the start
/// message; the collected count never goes down; no report but the last is
/// completed, and the last is completed exactly when the run is done; one end
/// marker is sent once done and none before; and once done, the completed report
/// is the last thing sent, with its total equal to what was collected, which is
/// the number of messages forwarded.
pub open spec fn grubber_history_ok(h: Seq<GrubberMessage>, done: bool) -> bool {
    let r = reports(h);
    &&& r.len() > 0 ==> r[0].num_grubbed_messages == 1
    &&& forall|i: int, j: int|
        0 <= i <= j < r.len() ==> #[trigger] r[i].num_grubbed_messages <= #[trigger] r[j].num_grubbed_messages
    &&& forall|i: int| 0 <= i < r.len() && #[trigger] r[i].is_completed ==> i == r.len() - 1
    &&& done <==> (r.len() > 0 && r.last().is_completed)
    &&& end_markers(h) == if done { 1nat } else { 0nat }
    &&& done ==> {
        &&& h.last() is StateUpdate
        &&& r.last().num_total_messages == r.last().num_grubbed_messages
        &&& r.last().num_grubbed_messages == forwarded_count(h)
    }
}

/// The state after `estimate_total`.
pub open spec fn estimated(s: GrubberState, pointer_position: Option<u64>, end_position: Option<u64>) -> GrubberState {
    match (pointer_position, end_position) {
        (Some(p), Some(e)) => {
            let approx = e - p + s.num_grubbed_messages + 1;
            GrubberState {
                num_total_messages: if approx >= s.num_grubbed_messages {
                    approx as u64
                } else {
                    s.num_grubbed_messages
                },
                ..s
            }
        },
        _ => s,
    }
}

/// The estimate counts what was already collected: with both positions known the
/// total becomes `end - pointer + collected + 1` (never less than what was
/// collected); without them nothing changes. The collected count and the completed
/// flag are never touched.
pub proof fn lemma_estimate_counts_collected(s: GrubberState, pointer_position: Option<u64>, end_position: Option<u64>)
    requires
        pointer_position matches Some(p) ==> end_position matches Some(e) ==> p <= e && e - p
            + s.num_grubbed_messages + 1 <= u64::MAX,
    ensures
        estimated(s, pointer_position, end_position).num_grubbed_messages == s.num_grubbed_messages,
        estimated(s, pointer_position, end_position).is_completed == s.is_completed,
        match (pointer_position, end_position) {
            (Some(p), Some(e)) => {
                &&& estimated(s, pointer_position, end_position).num_total_messages == e - p + s.num_grubbed_messages + 1
                &&& estimated(s, pointer_position, end_position).num_total_messages >= s.num_grubbed_messages
            },
            _ => estimated(s, pointer_position, end_position) == s,
        },
{
}

/// `b` forwards exactly the messages `taken`, in order.
pub open spec fn bulks_of(taken: Seq<Message>, b: Seq<MessageBulk>) -> bool {
    &&& b.len() == taken.len()
    &&& forall|i: int| 0 <= i < b.len() ==> #[trigger] b[i] == MessageBulk::Continue(taken[i])
}

proof fn lemma_history_push(h: Seq<GrubberMessage>, m: GrubberMessage)
    ensures
        reports(h.push(m)) == match m {
            GrubberMessage::StateUpdate(s) => reports(h).push(s),
            _ => reports(h),
        },
        forwarded_count(h.push(m)) == forwarded_count(h) + match m {
            GrubberMessage::MessageTranfer(b) => continue_count(b@),
            _ => 0nat,
        },
        end_markers(h.push(m)) == end_markers(h) + match m {
            GrubberMessage::MessageTranfer(b) => end_count(b@),
            _ => 0nat,
        },
{
    assert(h.push(m).drop_last() =~= h);
}

proof fn lemma_all_continue(bs: Seq<MessageBulk>)
    requires
        forall|i: int| 0 <= i < bs.len() ==> #[trigger] bs[i] is Continue,
    ensures
        continue_count(bs) == bs.len(),
        end_count(bs) == 0,
    decreases bs.len(),
{
    if bs.len() > 0 {
        lemma_all_continue(bs.drop_last());
    }
}

proof fn lemma_single_bulk(b: MessageBulk)
    ensures
        continue_count(seq![b]) == if b is Continue { 1nat } else { 0nat },
        end_count(seq![b]) == if b is End { 1nat } else { 0nat },
{
    let e = Seq::<MessageBulk>::empty();
    assert(seq![b].drop_last() =~= e);
    assert(continue_count(e) == 0 && end_count(e) == 0);
    assert(seq![b].last() == b);
}

/// A run of the channel grubber as a value: what it has collected, where it
/// stands, whether it is done or waiting for a page, and everything it has sent.
pub struct RunView {
    pub state: GrubberState,
    pub pointer_id: u64,
    pub pointer_position: Option<u64>,
    pub end_id: u64,
    pub end_position: Option<u64>,
    pub done: bool,
    pub awaiting_page: bool,
    pub history: Seq<GrubberMessage>,
}

/// What holds of every run: its history is as `grubber_history_ok` says, and its
/// state agrees with it.
pub open spec fn run_wf(v: RunView) -> bool {
    let h = v.history;
    let r = reports(h);
    &&& grubber_history_ok(h, v.done)
    &&& v.state.num_grubbed_messages == forwarded_count(h)
    &&& r.len() > 0 ==> r.last().num_grubbed_messages <= v.state.num_grubbed_messages
    &&& v.done == v.state.is_completed
    &&& v.awaiting_page ==> r.len() > 0
    &&& r.len() == 0 ==> !v.awaiting_page && v.state.num_grubbed_messages == 1
}

proof fn lemma_report_pushed(r0: Seq<GrubberState>, r: Seq<GrubberState>, s: GrubberState, g: u64)
    requires
        r == r0.push(s),
        forall|i: int, j: int|
            0 <= i <= j < r0.len() ==> #[trigger] r0[i].num_grubbed_messages <= #[trigger] r0[j].num_grubbed_messages,
        forall|i: int| 0 <= i < r0.len() ==> !(#[trigger] r0[i].is_completed),
        r0.len() > 0 ==> r0.last().num_grubbed_messages <= g,
        s.num_grubbed_messages == g,
    ensures
        forall|i: int, j: int|
            0 <= i <= j < r.len() ==> #[trigger] r[i].num_grubbed_messages <= #[trigger] r[j].num_grubbed_messages,
        forall|i: int| 0 <= i < r.len() - 1 ==> !(#[trigger] r[i].is_completed),
{
    assert forall|i: int, j: int| 0 <= i <= j < r.len() implies #[trigger] r[i].num_grubbed_messages
        <= #[trigger] r[j].num_grubbed_messages by {
        if j < r0.len() {
            assert(r[i] == r0[i] && r[j] == r0[j]);
        } else if i < r0.len() {
            assert(r[i] == r0[i]);
            assert(r0[i].num_grubbed_messages <= r0.last().num_grubbed_messages);
        }
    }
    assert forall|i: int| 0 <= i < r.len() - 1 implies !(#[trigger] r[i].is_completed) by {
        assert(r[i] == r0[i]);
    }
}

/// One run of the channel grubber. Its fields are private: every value of it
/// satisfies `run_wf` of its view.
pub struct ChannelSubsequentRun {
    state: GrubberState,
    pointer_id: u64,
    pointer_position: Option<u64>,
    end_id: u64,
    end_position: Option<u64>,
    done: bool,
    awaiting_page: bool,
    history: Ghost<Seq<GrubberMessage>>,
}

impl View for ChannelSubsequentRun {
    type V = RunView;

    closed spec fn view(&self) -> RunView {
        RunView {
            state: self.state,
            pointer_id: self.pointer_id,
            pointer_position: self.pointer_position,
            end_id: self.end_id,
            end_position: self.end_position,
            done: self.done,
            awaiting_page: self.awaiting_page,
            history: self.history@,
        }
    }
}

impl ChannelSubsequentRun {
    #[verifier::type_invariant]
    closed spec fn inv(&self) -> bool {
        run_wf(self@)
    }

    /// Starts a run from the message `start`, up to the last message `end_id`:
    /// the start message is forwarded first.
    pub fn begin(start: Message, end_id: u64, end_position: Option<u64>) -> (res: (ChannelSubsequentRun, Vec<GrubberMessage>))
        ensures
            run_wf(res.0@),
            !res.0@.done,
            !res.0@.awaiting_page,
            res.0@.state == (GrubberState { num_total_messages: 1, num_grubbed_messages: 1, is_completed: false }),
            res.0@.pointer_id == start.id,
            res.0@.pointer_position == start.position,
            res.0@.end_id == end_id,
            res.0@.end_position == end_position,
            res.0@.history == res.1@,
            res.1@.len() == 1,
            res.1@[0] matches GrubberMessage::MessageTranfer(b) && b@ == seq![MessageBulk::Continue(start)],
    {
        let pointer_id = start.id;
        let pointer_position = start.position;
        let ghost start_view = start;
        let mut first: Vec<MessageBulk> = Vec::new();
        first.push(MessageBulk::Continue(start));
        let mut out: Vec<GrubberMessage> = Vec::new();
        out.push(GrubberMessage::MessageTranfer(first));
        let ghost h = out@;
        proof {
            lemma_history_push(Seq::empty(), out@[0]);
            assert(Seq::<GrubberMessage>::empty().push(out@[0]) =~= h);
            assert(first@ =~= seq![MessageBulk::Continue(start_view)]);
            lemma_single_bulk(MessageBulk::Continue(start_view));
            assert(reports(Seq::<GrubberMessage>::empty()) =~= Seq::<GrubberState>::empty());
        }
        let run = ChannelSubsequentRun {
            state: initial_state(),
            pointer_id,
            pointer_position,
            end_id,
            end_position,
            done: false,
            awaiting_page: false,
            history: Ghost(h),
        };
        (run, out)
    }

    /// One turn of the loop: re-estimates the total and reports it; when the
    /// current message is the last one, completes, sends the end marker and the
    /// completed report. The flag says whether an estimate could be made.
    pub fn turn(&mut self) -> (res: (Vec<GrubberMessage>, bool))
        requires
            !old(self)@.done,
            old(self)@.pointer_position matches Some(p) ==> old(self)@.end_position matches Some(e) ==> p <= e
                && e - p + old(self)@.state.num_grubbed_messages + 1 <= u64::MAX,
        ensures
            run_wf(final(self)@),
            final(self)@.history == old(self)@.history + res.0@,
            res.1 == (old(self)@.pointer_position is Some && old(self)@.end_position is Some),
            res.0@.len() > 0,
            res.0@[0] matches GrubberMessage::StateUpdate(r) && {
                &&& r.num_grubbed_messages == old(self)@.state.num_grubbed_messages
                &&& !r.is_completed
                &&& match (old(self)@.pointer_position, old(self)@.end_position) {
                    (Some(p), Some(e)) => r.num_total_messages == e - p + old(self)@.state.num_grubbed_messages + 1,
                    _ => r.num_total_messages == old(self)@.state.num_total_messages,
                }
            },
            final(self)@.pointer_id == old(self)@.pointer_id,
            final(self)@.pointer_position == old(self)@.pointer_position,
            final(self)@.end_id == old(self)@.end_id,
            final(self)@.end_position == old(self)@.end_position,
            ({
                let s = estimated(old(self)@.state, old(self)@.pointer_position, old(self)@.end_position);
                if old(self)@.pointer_id == old(self)@.end_id {
                    &&& final(self)@.done
                    &&& !final(self)@.awaiting_page
                    &&& final(self)@.state == (GrubberState {
                        num_total_messages: s.num_grubbed_messages,
                        num_grubbed_messages: s.num_grubbed_messages,
                        is_completed: true,
                    })
                    &&& res.0@.len() == 3
                    &&& res.0@[0] == GrubberMessage::StateUpdate(s)
                    &&& res.0@[1] matches GrubberMessage::MessageTranfer(b) && b@ == seq![MessageBulk::End]
                    &&& res.0@[2] == GrubberMessage::StateUpdate(final(self)@.state)
                } else {
                    &&& !final(self)@.done
                    &&& final(self)@.awaiting_page
                    &&& final(self)@.state == s
                    &&& res.0@ == seq![GrubberMessage::StateUpdate(s)]
                }
            }),
    {
        proof {
            use_type_invariant(&*self);
        }
        let ghost h0 = self.history@;
        let pointer_id = self.pointer_id;
        let pointer_position = self.pointer_position;
        let end_id = self.end_id;
        let end_position = self.end_position;
        let mut state = self.state;
        let estimated_ok = estimate_total(&mut state, pointer_position, end_position);
        let s = state;
        let mut out: Vec<GrubberMessage> = Vec::new();
        out.push(GrubberMessage::StateUpdate(s));
        proof {
            lemma_history_push(h0, GrubberMessage::StateUpdate(s));
        }
        if check_caught_up(&mut state, pointer_id, end_id) {
            let mut end: Vec<MessageBulk> = Vec::new();
            end.push(MessageBulk::End);
            let ghost end_view = end@;
            out.push(GrubberMessage::MessageTranfer(end));
            out.push(GrubberMessage::StateUpdate(state));
            let ghost h3 = h0.push(GrubberMessage::StateUpdate(s)).push(out@[1]).push(GrubberMessage::StateUpdate(state));
            proof {
                let m0 = GrubberMessage::StateUpdate(s);
                let m1 = out@[1];
                let m2 = GrubberMessage::StateUpdate(state);
                let h1 = h0.push(m0);
                let h2 = h1.push(m1);
                assert(end_view =~= seq![MessageBulk::End]);
                lemma_single_bulk(MessageBulk::End);
                lemma_history_push(h1, m1);
                lemma_history_push(h2, m2);
                assert(h0 + out@ =~= h3);
                let r0 = reports(h0);
                let r2 = r0.push(s);
                let r3 = reports(h3);
                assert(r3 =~= r2.push(state));
                lemma_report_pushed(r0, r2, s, s.num_grubbed_messages);
                lemma_report_pushed(r2, r3, state, state.num_grubbed_messages);
                assert forall|i: int| 0 <= i < r3.len() && #[trigger] r3[i].is_completed implies i == r3.len() - 1 by {
                    if i < r3.len() - 1 {
                        assert(!r3[i].is_completed);
                    }
                }
            }
            *self = ChannelSubsequentRun {
                state,
                pointer_id,
                pointer_position,
                end_id,
                end_position,
                done: true,
                awaiting_page: false,
                history: Ghost(h3),
            };
        } else {
            let ghost h1 = h0.push(GrubberMessage::StateUpdate(s));
            proof {
                assert(h0 + out@ =~= h1);
                let r0 = reports(h0);
                let r1 = reports(h1);
                assert(r1 =~= r0.push(s));
                lemma_report_pushed(r0, r1, s, s.num_grubbed_messages);
                assert forall|i: int| 0 <= i < r1.len() && #[trigger] r1[i].is_completed implies i == r1.len() - 1 by {
                    if i < r1.len() - 1 {
                        assert(!r1[i].is_completed);
                    }
                }
            }
            *self = ChannelSubsequentRun {
                state,
                pointer_id,
                pointer_position,
                end_id,
                end_position,
                done: false,
                awaiting_page: true,
                history: Ghost(h1),
            };
        }
        (out, estimated_ok)
    }

    /// Takes in the page fetched after the current message: keeps, sorted, the
    /// messages up to the last one, counts them, reports the new state and forwards
    /// them; the last kept message becomes the current one.
    pub fn take_page(&mut self, fetched: Vec<Message>) -> (out: Vec<GrubberMessage>)
        requires
            !old(self)@.done,
            old(self)@.awaiting_page,
            exists|i: int| 0 <= i < fetched@.len() && #[trigger] fetched@[i].id <= old(self)@.end_id,
            old(self)@.state.num_grubbed_messages + fetched@.filter(kept_before(old(self)@.end_id)).len()
                <= u64::MAX,
        ensures
            run_wf(final(self)@),
            final(self)@.history == old(self)@.history + out@,
            !final(self)@.done,
            !final(self)@.awaiting_page,
            final(self)@.end_id == old(self)@.end_id,
            final(self)@.end_position == old(self)@.end_position,
            final(self)@.state == (GrubberState {
                num_grubbed_messages: (old(self)@.state.num_grubbed_messages
                    + fetched@.filter(kept_before(old(self)@.end_id)).len()) as u64,
                ..old(self)@.state
            }),
            out@.len() == 2,
            out@[0] == GrubberMessage::StateUpdate(final(self)@.state),
            out@[1] matches GrubberMessage::MessageTranfer(b) && exists|sorted: Seq<Message>, taken: Seq<Message>|
                #[trigger] is_sorted_cut(fetched@, old(self)@.end_id, sorted, taken) && bulks_of(taken, b@)
                    && taken.len() > 0 && final(self)@.pointer_id == taken.last().id
                    && final(self)@.pointer_position == taken.last().position,
    {
        proof {
            use_type_invariant(&*self);
        }
        let ghost h0 = self.history@;
        let ghost fetched_view = fetched@;
        let end_id = self.end_id;
        let end_position = self.end_position;
        let mut state = self.state;
        let mut taken = absorb_page(&mut state, fetched, end_id);
        let ghost taken_view = taken@;
        let last = taken.len() - 1;
        let pointer_id = taken[last].id;
        let pointer_position = taken[last].position;
        let mut bulks: Vec<MessageBulk> = Vec::new();
        while taken.len() > 0
            invariant
                bulks@.len() + taken@.len() == taken_view.len(),
                taken@ == taken_view.skip(bulks@.len() as int),
                forall|i: int| 0 <= i < bulks@.len() ==> #[trigger] bulks@[i] == MessageBulk::Continue(taken_view[i]),
            decreases taken@.len(),
        {
            let ghost k: int = bulks@.len() as int;
            let m = taken.remove(0);
            bulks.push(MessageBulk::Continue(m));
            proof {
                assert(taken@ =~= taken_view.skip(k + 1));
            }
        }
        let ghost bulks_view = bulks@;
        let s = state;
        let mut out: Vec<GrubberMessage> = Vec::new();
        out.push(GrubberMessage::StateUpdate(s));
        out.push(GrubberMessage::MessageTranfer(bulks));
        let ghost h2 = h0.push(GrubberMessage::StateUpdate(s)).push(out@[1]);
        proof {
            let m0 = GrubberMessage::StateUpdate(s);
            let m1 = out@[1];
            let h1 = h0.push(m0);
            assert(forall|i: int| 0 <= i < bulks_view.len() ==> #[trigger] bulks_view[i] is Continue);
            lemma_all_continue(bulks_view);
            lemma_history_push(h0, m0);
            lemma_history_push(h1, m1);
            assert(h0 + out@ =~= h2);
            let r0 = reports(h0);
            let r2 = reports(h2);
            assert(r2 =~= r0.push(s));
            lemma_report_pushed(r0, r2, s, s.num_grubbed_messages);
            assert forall|i: int| 0 <= i < r2.len() && #[trigger] r2[i].is_completed implies i == r2.len() - 1 by {
                if i < r2.len() - 1 {
                    assert(!r2[i].is_completed);
                }
            }
            let sorted = choose|sorted: Seq<Message>| #[trigger] is_sorted_cut(fetched_view, end_id, sorted, taken_view);
            assert(is_sorted_cut(fetched_view, end_id, sorted, taken_view) && bulks_of(taken_view, bulks_view));
        }
        *self = ChannelSubsequentRun {
            state,
            pointer_id,
            pointer_position,
            end_id,
            end_position,
            done: false,
            awaiting_page: false,
            history: Ghost(h2),
        };
        out
    }

    /// What the run has collected.
    pub fn state(&self) -> (s: GrubberState)
        ensures
            s == self@.state,
    {
        self.state
    }

    /// The id of the current message.
    pub fn pointer_id(&self) -> (id: u64)
        ensures
            id == self@.pointer_id,
    {
        self.pointer_id
    }

    /// The position of the current message, when known.
    pub fn pointer_position(&self) -> (p: Option<u64>)
        ensures
            p == self@.pointer_position,
    {
        self.pointer_position
    }

    /// The id of the last message to collect.
    pub fn end_id(&self) -> (id: u64)
        ensures
            id == self@.end_id,
    {
        self.end_id
    }

    /// The position of the last message to collect, when known.
    pub fn end_position(&self) -> (p: Option<u64>)
        ensures
            p == self@.end_position,
    {
        self.end_position
    }

    /// Whether the run has sent its completed report.
    pub fn is_done(&self) -> (d: bool)
        ensures
            d == self@.done,
    {
        self.done
    }
}

} // verus!
