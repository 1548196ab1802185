use nyaodle::db::interaction::{delete_after_find, PendingInteractionDoc};
use nyaodle::db::race::{race_skipped, RaceKind, RaceOutcome};
use nyaodle::db::threader_configurations::ThreaderConfigurationDoc;
use nyaodle::event::component_interaction::{handler_for, ComponentHandler};
use nyaodle::event::{route_interaction, EventRoute, InteractionKind};
use nyaodle::framework::interactions::PendingInteraction;
use nyaodle::framework::object_id::ObjectId;
use nyaodle::grubber::channel_subsequent::ChannelSubsequent;
use nyaodle::grubber::NyaodleRequest;
use nyaodle::threader::another_channel::AnotherChannelThreader;
use nyaodle::threader::debug_threader::DebugThreader;
use nyaodle::threader::{ThreaderConfiguration, ThreaderVariant};
use nyaodle::ui::components::{ActionRow, ButtonStyle, ChannelType, SelectMenuKind};
use nyaodle::ui::configure_threader::{configuration_for_selection, configure_threader_component};
use nyaodle::ui::configure_threader_interactions::ConfigureThreaderDocs;

fn oid(n: u8) -> ObjectId {
    ObjectId::from_bytes([n; 12])
}

fn request() -> NyaodleRequest {
    NyaodleRequest::ChannelSubsequent(ChannelSubsequent { message_id: 1, channel_id: 2 })
}

fn config(c: ThreaderConfiguration) -> ThreaderConfigurationDoc {
    let mut d = ThreaderConfigurationDoc::new(request(), 0);
    d.configuration = c;
    d
}

#[test]
fn default_configuration_is_unchosen_channel_move() {
    assert_eq!(ThreaderConfiguration::default(), ThreaderConfiguration::AnotherChannel { channel_id: None });
    assert_eq!(
        ThreaderConfigurationDoc::new(request(), 5).configuration,
        ThreaderConfiguration::AnotherChannel { channel_id: None }
    );
}

#[test]
fn create_threader_picks_channel_move_only_with_channel() {
    assert_eq!(
        ThreaderConfiguration::AnotherChannel { channel_id: Some(7) }.create_threader(),
        ThreaderVariant::AnotherChannel(AnotherChannelThreader { channel_id: 7 })
    );
    assert_eq!(
        ThreaderConfiguration::AnotherChannel { channel_id: None }.create_threader(),
        ThreaderVariant::Debug(DebugThreader {})
    );
    assert_eq!(ThreaderConfiguration::NewThread {}.create_threader(), ThreaderVariant::Debug(DebugThreader {}));
    assert_eq!(ThreaderConfiguration::NewForumPost {}.create_threader(), ThreaderVariant::Debug(DebugThreader {}));
}

#[test]
fn change_channel_always_moves_to_channel() {
    let mut c = ThreaderConfiguration::NewThread {};
    assert!(!c.change_channel(4));
    assert_eq!(c, ThreaderConfiguration::AnotherChannel { channel_id: Some(4) });
    assert!(c.change_channel(5));
    assert_eq!(c, ThreaderConfiguration::AnotherChannel { channel_id: Some(5) });
}

#[test]
fn selection_maps_to_configuration() {
    assert_eq!(configuration_for_selection("another_channel"), ThreaderConfiguration::AnotherChannel { channel_id: None });
    assert_eq!(configuration_for_selection("new_thread"), ThreaderConfiguration::NewThread {});
    assert_eq!(configuration_for_selection("new_forum_post"), ThreaderConfiguration::NewForumPost {});
}

#[test]
fn race_only_insert_wins() {
    assert!(!race_skipped(RaceOutcome::Inserted));
    assert!(race_skipped(RaceOutcome::Matched));
    assert!(race_skipped(RaceOutcome::Failed));
    assert_eq!(RaceKind::CommandInvocation.name(), "command_invocation");
    assert_eq!(RaceKind::ReceiveInteraction.name(), "receive_interaction");
    assert_eq!(RaceKind::InteractionCreateEvent.name(), "interaction_create_event");
}

#[test]
fn routing_and_dispatch() {
    assert_eq!(route_interaction(true, InteractionKind::Component), EventRoute::Skip);
    assert_eq!(route_interaction(false, InteractionKind::Component), EventRoute::LookUpComponent);
    assert_eq!(route_interaction(false, InteractionKind::Command), EventRoute::Ignore);
    assert_eq!(route_interaction(false, InteractionKind::Other), EventRoute::ReportUnhandled);
    assert_eq!(
        handler_for(&PendingInteraction::SelectThreaders { config_id: oid(1) }),
        ComponentHandler::UpdateThreaderSelection
    );
    assert_eq!(
        handler_for(&PendingInteraction::CloseThreadersConfig { config_id: oid(1) }),
        ComponentHandler::CloseThreadersConfig
    );
    assert!(delete_after_find(true, &Some(PendingInteraction::ExecuteNyaodle { config_id: oid(2) })));
    assert!(!delete_after_find(true, &None));
    assert!(!delete_after_find(false, &Some(PendingInteraction::ExecuteNyaodle { config_id: oid(2) })));
}

#[test]
fn docs_from_inserted_and_from_interactions() {
    let ps = ConfigureThreaderDocs::pending_interactions_for(oid(9));
    assert_eq!(ps.len(), 3);
    assert!(matches!(ps[0], PendingInteraction::SelectThreaders { .. }));
    assert!(matches!(ps[1], PendingInteraction::ExecuteNyaodle { .. }));
    assert!(matches!(ps[2], PendingInteraction::CloseThreadersConfig { .. }));
    let d = ConfigureThreaderDocs::from_inserted_ids(config(ThreaderConfiguration::default()), &vec![oid(1), oid(2), oid(3)]);
    assert_eq!((d.select_id.bytes[0], d.execute_id.bytes[0], d.close_id.bytes[0]), (1, 2, 3));

    let docs = vec![
        PendingInteractionDoc { id: Some(oid(5)), interaction: PendingInteraction::CloseThreadersConfig { config_id: oid(9) }, created_at: 0 },
        PendingInteractionDoc { id: None, interaction: PendingInteraction::SelectThreaders { config_id: oid(9) }, created_at: 0 },
        PendingInteractionDoc { id: Some(oid(6)), interaction: PendingInteraction::SelectThreaders { config_id: oid(9) }, created_at: 0 },
        PendingInteractionDoc { id: Some(oid(7)), interaction: PendingInteraction::ExecuteNyaodle { config_id: oid(9) }, created_at: 0 },
        PendingInteractionDoc { id: Some(oid(8)), interaction: PendingInteraction::SelectThreaders { config_id: oid(9) }, created_at: 0 },
    ];
    let d = ConfigureThreaderDocs::from_interactions(config(ThreaderConfiguration::default()), &docs).unwrap();
    assert_eq!((d.select_id.bytes[0], d.execute_id.bytes[0], d.close_id.bytes[0]), (6, 7, 5));
    assert!(ConfigureThreaderDocs::from_interactions(config(ThreaderConfiguration::default()), &docs[..3].to_vec()).is_none());
}

fn legacy_docs() -> ConfigureThreaderDocs {
    ConfigureThreaderDocs::from_inserted_ids(config(ThreaderConfiguration::default()), &vec![oid(1), oid(2), oid(3)])
}

#[test]
fn legacy_component_defaults_to_channel_move() {
    let rows = configure_threader_component(&legacy_docs(), None);
    assert_eq!(rows.len(), 3);
    match &rows[0] {
        ActionRow::SelectMenu(m) => {
            assert_eq!(m.custom_id, "010101010101010101010101");
            match &m.kind {
                SelectMenuKind::StringSelect { options } => {
                    let flags: Vec<bool> = options.iter().map(|o| o.default_selection).collect();
                    assert_eq!(flags, vec![true, false, false]);
                    assert_eq!(options[0].label, "別のチャンネルに移動");
                    assert_eq!(options[2].value, "new_forum_post");
                }
                _ => panic!("expected a string select"),
            }
        }
        _ => panic!("expected a select menu"),
    }
    match &rows[1] {
        ActionRow::SelectMenu(m) => {
            assert_eq!(m.custom_id, "another_channel");
            assert_eq!(m.placeholder.as_deref(), Some("移動先のチャンネル"));
            match &m.kind {
                SelectMenuKind::Channel { channel_types, default_channels } => {
                    assert_eq!(channel_types.as_deref(), Some(&[ChannelType::Text, ChannelType::Private][..]));
                    assert!(default_channels.is_none());
                }
                _ => panic!("expected a channel select"),
            }
        }
        _ => panic!("expected a select menu"),
    }
    match &rows[2] {
        ActionRow::Buttons(b) => {
            assert_eq!(b[0].custom_id, "020202020202020202020202");
            assert_eq!(b[0].label, "実行");
            assert_eq!(b[0].style, ButtonStyle::Primary);
            assert!(!b[0].disabled);
            assert_eq!(b[1].custom_id, "030303030303030303030303");
            assert_eq!(b[1].label, "キャンセル");
            assert_eq!(b[1].style, ButtonStyle::Secondary);
        }
        _ => panic!("expected buttons"),
    }
}

#[test]
fn legacy_component_for_unimplemented_choice() {
    let rows = configure_threader_component(&legacy_docs(), Some("new_thread".to_string()));
    assert_eq!(rows.len(), 2);
    match &rows[1] {
        ActionRow::Buttons(b) => {
            assert_eq!(b[0].label, "(実装中)");
            assert!(b[0].disabled);
        }
        _ => panic!("expected buttons"),
    }
}

#[test]
fn created_docs_are_found_again() {
    let config = config(ThreaderConfiguration::default());
    let ids = vec![oid(21), oid(22), oid(23)];
    let created = ConfigureThreaderDocs::from_inserted_ids(config, &ids);
    let stored: Vec<PendingInteractionDoc> = ConfigureThreaderDocs::pending_interactions_for(oid(9))
        .into_iter()
        .zip(ids.iter())
        .map(|(p, id)| PendingInteractionDoc { id: Some(*id), interaction: p, created_at: 0 })
        .rev()
        .collect();
    let found = ConfigureThreaderDocs::from_interactions(config, &stored).unwrap();
    assert_eq!(found.select_id, created.select_id);
    assert_eq!(found.execute_id, created.execute_id);
    assert_eq!(found.close_id, created.close_id);
    assert_eq!(found.config.configuration, created.config.configuration);
}

#[test]
fn closing_deletes_every_ui_kind() {
    assert_eq!(
        nyaodle::framework::interactions::closed_interaction_names(),
        vec!["select_threaders", "execute_nyaodle", "close_threaders_config", "change_channel_id"]
    );
}
