use nyaodle::framework::register_commands_buttons::{register_decision, RegisterDecision};
use nyaodle::grubber::channel_subsequent::ChannelSubsequentRun;
use nyaodle::grubber::{GrubberMessage, GrubberState};
use nyaodle::threader::{Message, MessageBulk};

fn msg(id: u64, position: Option<u64>) -> Message {
    Message {
        id,
        position,
        guild_id: None,
        content: String::new(),
        author_id: 1,
        author_name: "bob".to_string(),
        author_avatar_url: None,
    }
}

fn reports(sent: &[GrubberMessage]) -> Vec<GrubberState> {
    sent.iter()
        .filter_map(|m| match m {
            GrubberMessage::StateUpdate(s) => Some(*s),
            _ => None,
        })
        .collect()
}

fn forwarded(sent: &[GrubberMessage]) -> usize {
    sent.iter()
        .map(|m| match m {
            GrubberMessage::MessageTranfer(b) => b.iter().filter(|x| matches!(x, MessageBulk::Continue(_))).count(),
            _ => 0,
        })
        .sum()
}

#[test]
fn grubber_run_reports_and_forwards() {
    let mut sent = Vec::new();
    let (mut run, first) = ChannelSubsequentRun::begin(msg(10, Some(0)), 14, Some(4));
    sent.extend(first);
    let (out, estimated) = run.turn();
    assert!(estimated);
    sent.extend(out);
    assert!(!run.is_done());
    let out = run.take_page(vec![msg(12, Some(2)), msg(11, Some(1)), msg(20, Some(9))]);
    sent.extend(out);
    assert_eq!(run.pointer_id(), 12);
    let (out, _) = run.turn();
    sent.extend(out);
    let out = run.take_page(vec![msg(14, Some(4)), msg(13, Some(3)), msg(15, Some(5)), msg(16, Some(6))]);
    sent.extend(out);
    let (out, _) = run.turn();
    sent.extend(out);
    assert!(run.is_done());

    let r = reports(&sent);
    assert_eq!(r[0].num_grubbed_messages, 1);
    assert_eq!(r[0].num_total_messages, 6);
    assert!(r.windows(2).all(|w| w[0].num_grubbed_messages <= w[1].num_grubbed_messages));
    assert_eq!(r.iter().filter(|s| s.is_completed).count(), 1);
    let last = r.last().unwrap();
    assert!(last.is_completed);
    assert!(matches!(sent.last().unwrap(), GrubberMessage::StateUpdate(_)));
    assert_eq!(last.num_total_messages, 5);
    assert_eq!(last.num_grubbed_messages as usize, forwarded(&sent));
    let ends = sent
        .iter()
        .filter(|m| matches!(m, GrubberMessage::MessageTranfer(b) if b.iter().any(|x| matches!(x, MessageBulk::End))))
        .count();
    assert_eq!(ends, 1);
}

#[test]
fn grubber_run_on_last_message_completes_at_once() {
    let (mut run, first) = ChannelSubsequentRun::begin(msg(7, None), 7, None);
    assert_eq!(first.len(), 1);
    let (out, estimated) = run.turn();
    assert!(!estimated);
    assert_eq!(out.len(), 3);
    assert!(run.is_done());
    assert_eq!(run.state(), GrubberState { num_total_messages: 1, num_grubbed_messages: 1, is_completed: true });
}

#[test]
fn register_only_from_admin_guild() {
    assert_eq!(register_decision(true, Some(5), 5), RegisterDecision::Skip);
    assert_eq!(register_decision(false, Some(5), 5), RegisterDecision::Register);
    assert_eq!(register_decision(false, Some(6), 5), RegisterDecision::IgnoreNonAdmin);
    assert_eq!(register_decision(false, None, 5), RegisterDecision::IgnoreNonAdmin);
}
