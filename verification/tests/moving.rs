use nyaodle::controller::{
    new_nyaodle_state, nyaodle_complete, nyaodle_step, update_state, ControllerAction, ControllerEvent,
};
use nyaodle::grubber::channel_subsequent::{absorb_page, check_caught_up, estimate_total, initial_state};
use nyaodle::grubber::{GrubberMessage, GrubberState};
use nyaodle::threader::another_channel::AnotherChannelThreader;
use nyaodle::threader::debug_threader::DebugThreader;
use nyaodle::threader::{Message, MessageBulk, ThreaderMessage, ThreaderState};

fn msg(id: u64) -> Message {
    Message {
        id,
        position: None,
        guild_id: Some(5),
        content: format!("m{}", id),
        author_id: 42,
        author_name: "alice".to_string(),
        author_avatar_url: None,
    }
}

#[test]
fn update_state_needs_both_sides() {
    let mut s = new_nyaodle_state();
    assert!(!update_state("x", &mut s));
    s.is_grubbed = true;
    assert!(!update_state("x", &mut s));
    s.is_threaded = true;
    assert!(update_state("x", &mut s));
    assert!(s.is_grubbed && s.is_threaded && !s.is_completed);
}

#[test]
fn controller_finishes_after_both_reports() {
    let mut s = new_nyaodle_state();
    let a = nyaodle_step(
        "x",
        &mut s,
        ControllerEvent::Grubber(GrubberMessage::StateUpdate(GrubberState {
            num_total_messages: 5,
            num_grubbed_messages: 5,
            is_completed: true,
        })),
    );
    assert!(matches!(a, ControllerAction::Report { finished: false }));
    assert_eq!(s.num_total_messages, 5);
    assert_eq!(s.num_grubbed_messages, 5);
    let a = nyaodle_step(
        "x",
        &mut s,
        ControllerEvent::Threader(ThreaderMessage::StateUpdate(ThreaderState {
            num_threaded_messages: 4,
            is_completed: true,
        })),
    );
    assert!(matches!(a, ControllerAction::Report { finished: true }));
    assert_eq!(s.num_threaded_messages, 4);
    nyaodle_complete(&mut s);
    assert!(s.is_completed);
}

#[test]
fn controller_forwards_transfers_unchanged() {
    let mut s = new_nyaodle_state();
    let a = nyaodle_step(
        "x",
        &mut s,
        ControllerEvent::Grubber(GrubberMessage::MessageTranfer(vec![
            MessageBulk::Continue(msg(3)),
            MessageBulk::End,
        ])),
    );
    match a {
        ControllerAction::Forward(v) => {
            assert_eq!(v.len(), 2);
            assert!(matches!(&v[0], MessageBulk::Continue(m) if m.id == 3));
            assert!(matches!(v[1], MessageBulk::End));
        }
        _ => panic!("expected a forward"),
    }
    assert_eq!(s, new_nyaodle_state());
}

#[test]
fn grubber_estimates_from_positions() {
    let mut s = initial_state();
    assert_eq!(s, GrubberState { num_total_messages: 1, num_grubbed_messages: 1, is_completed: false });
    assert!(estimate_total(&mut s, Some(10), Some(30)));
    assert_eq!(s.num_total_messages, 22);
    assert!(!estimate_total(&mut s, None, Some(30)));
    assert_eq!(s.num_total_messages, 22);
}

#[test]
fn grubber_absorbs_sorted_prefix() {
    let mut s = initial_state();
    let page = vec![msg(15), msg(12), msg(40), msg(11), msg(20)];
    let taken = absorb_page(&mut s, page, 20);
    let ids: Vec<u64> = taken.iter().map(|m| m.id).collect();
    assert_eq!(ids, vec![11, 12, 15, 20]);
    assert_eq!(s.num_grubbed_messages, 5);
    assert_eq!(s.num_total_messages, 1);
}

#[test]
fn grubber_completes_when_caught_up() {
    let mut s = GrubberState { num_total_messages: 9, num_grubbed_messages: 7, is_completed: false };
    assert!(!check_caught_up(&mut s, 5, 6));
    assert_eq!(s.num_total_messages, 9);
    assert!(check_caught_up(&mut s, 6, 6));
    assert_eq!(s, GrubberState { num_total_messages: 7, num_grubbed_messages: 7, is_completed: true });
}

#[test]
fn debug_threader_counts_until_end() {
    let t = DebugThreader {};
    let mut s = ThreaderState::new();
    for i in 0..3 {
        assert!(!t.step(&mut s, &MessageBulk::Continue(msg(i))));
    }
    assert!(t.step(&mut s, &MessageBulk::End));
    assert_eq!(s, ThreaderState { num_threaded_messages: 3, is_completed: true });
}

#[test]
fn another_channel_relays_then_completes() {
    let t = AnotherChannelThreader { channel_id: 99 };
    let mut s = ThreaderState::new();
    let relayed = t.step(&mut s, Some(MessageBulk::Continue(msg(8)))).unwrap();
    assert_eq!(relayed.id, 8);
    assert!(!s.is_completed);
    assert!(t.step(&mut s, None).is_none());
    assert!(s.is_completed);
    let mut s2 = ThreaderState::new();
    assert!(t.step(&mut s2, Some(MessageBulk::End)).is_none());
    assert!(s2.is_completed);
    assert_eq!(s2.num_threaded_messages, 0);
}

#[test]
fn webhook_payload_prefers_nick() {
    let mut m = msg(1);
    m.author_avatar_url = Some("https://cdn/a.png".to_string());
    let p = AnotherChannelThreader::webhook_payload(m, Some("nick".to_string()));
    assert_eq!(p.username, "nick");
    assert_eq!(p.avatar_url, "https://cdn/a.png");
    assert_eq!(p.content, "m1");
    let p = AnotherChannelThreader::webhook_payload(msg(2), None);
    assert_eq!(p.username, "alice");
    assert_eq!(p.avatar_url, "");
    assert_eq!(AnotherChannelThreader::webhook_name("abc"), "nyaodle-threader-abc");
}
