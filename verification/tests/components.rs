use nyaodle::db::threader_configurations::ThreaderConfigurationDoc;
use nyaodle::framework::object_id::ObjectId;
use nyaodle::grubber::channel_subsequent::ChannelSubsequent;
use nyaodle::grubber::NyaodleRequest;
use nyaodle::threader::ThreaderConfiguration;
use nyaodle::ui::components::{ActionRow, SelectMenuKind};
use nyaodle::ui::configure_threader::component::configure_threader_component;
use nyaodle::ui::configure_threader::interactions::ConfigureThreaderDocs;

fn docs(c: ThreaderConfiguration) -> ConfigureThreaderDocs {
    let mut config = ThreaderConfigurationDoc::new(
        NyaodleRequest::ChannelSubsequent(ChannelSubsequent { message_id: 1, channel_id: 2 }),
        0,
    );
    config.configuration = c;
    ConfigureThreaderDocs {
        config,
        select_id: ObjectId::from_bytes([1; 12]),
        execute_id: ObjectId::from_bytes([2; 12]),
        close_id: ObjectId::from_bytes([3; 12]),
        change_channel_id: ObjectId::from_bytes([4; 12]),
    }
}

fn flags(row: &ActionRow) -> Vec<bool> {
    match row {
        ActionRow::SelectMenu(m) => match &m.kind {
            SelectMenuKind::StringSelect { options } => options.iter().map(|o| o.default_selection).collect(),
            _ => panic!("expected a string select"),
        },
        _ => panic!("expected a select menu"),
    }
}

#[test]
fn component_for_chosen_channel() {
    let rows = configure_threader_component(&docs(ThreaderConfiguration::AnotherChannel { channel_id: Some(77) }));
    assert_eq!(rows.len(), 3);
    assert_eq!(flags(&rows[0]), vec![true, false, false]);
    match &rows[0] {
        ActionRow::SelectMenu(m) => assert_eq!(m.custom_id, "nyaodle-010101010101010101010101"),
        _ => panic!("expected a select menu"),
    }
    match &rows[1] {
        ActionRow::SelectMenu(m) => {
            assert_eq!(m.custom_id, "nyaodle-040404040404040404040404");
            match &m.kind {
                SelectMenuKind::Channel { default_channels, .. } => assert_eq!(default_channels, &Some(vec![77])),
                _ => panic!("expected a channel select"),
            }
        }
        _ => panic!("expected a select menu"),
    }
    match &rows[2] {
        ActionRow::Buttons(b) => {
            assert_eq!(b[0].custom_id, "nyaodle-020202020202020202020202");
            assert!(!b[0].disabled);
            assert_eq!(b[1].custom_id, "nyaodle-030303030303030303030303");
        }
        _ => panic!("expected buttons"),
    }
}

#[test]
fn component_for_forum_post() {
    let rows = configure_threader_component(&docs(ThreaderConfiguration::NewForumPost {}));
    assert_eq!(rows.len(), 2);
    assert_eq!(flags(&rows[0]), vec![false, false, true]);
    match &rows[1] {
        ActionRow::Buttons(b) => {
            assert!(b[0].disabled);
            assert_eq!(b[0].label, "(実装中)");
        }
        _ => panic!("expected buttons"),
    }
}

#[test]
fn component_for_new_thread_preselects_it() {
    let rows = configure_threader_component(&docs(ThreaderConfiguration::NewThread {}));
    assert_eq!(flags(&rows[0]), vec![false, true, false]);
}
