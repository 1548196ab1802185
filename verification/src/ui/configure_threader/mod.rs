//! The threader configuration UI: its rows, and what a choice in it selects.

pub mod component;
pub mod interactions;

use vstd::prelude::*;

use crate::framework::object_id::hex_lower;
use crate::text::str_eq;
use crate::threader::ThreaderConfiguration;
use crate::ui::components::{
    action_buttons, channel_select_menu, is_action_buttons, is_channel_select, is_threader_select,
    threader_option_value, threader_select_menu, ActionRow,
};
use crate::ui::configure_threader_interactions::ConfigureThreaderDocs;

verus! {

/// The values the threader select menu offers.
pub open spec fn is_threader_option_value(v: Seq<char>) -> bool {
    ||| v == "another_channel"@
    ||| v == "new_thread"@
    ||| v == "new_forum_post"@
}

/// The configuration a choice in the threader select menu stands for; a channel
/// move starts with no channel chosen.
pub open spec fn configuration_for_value(v: Seq<char>) -> ThreaderConfiguration {
    if v == "another_channel"@ {
        ThreaderConfiguration::AnotherChannel { channel_id: None }
    } else if v == "new_thread"@ {
        ThreaderConfiguration::NewThread {}
    } else {
        ThreaderConfiguration::NewForumPost {}
    }
}

/// `a` and `b` are configurations of the same kind.
pub open spec fn same_kind(a: ThreaderConfiguration, b: ThreaderConfiguration) -> bool {
    threader_option_value(a) == threader_option_value(b)
}

/// The configuration for the value chosen in the threader select menu.
pub fn configuration_for_selection(selected: &str) -> (c: ThreaderConfiguration)
    requires
        is_threader_option_value(selected@),
    ensures
        c == configuration_for_value(selected@),
{
    if str_eq(selected, "another_channel") {
        ThreaderConfiguration::AnotherChannel { channel_id: None }
    } else if str_eq(selected, "new_thread") {
        ThreaderConfiguration::NewThread {}
    } else {
        ThreaderConfiguration::NewForumPost {}
    }
}

/// The rows of the configuration UI, as first drawn: the threader select menu
/// preselecting `default` (a channel move when absent), the destination channel
/// menu when a channel move is selected, and the execute and cancel buttons (the
/// execute button is disabled for the choices not yet implemented). Components are
/// named by the hexadecimal text of their interaction ids.
pub fn configure_threader_component(docs: &ConfigureThreaderDocs, default: Option<String>) -> (rows: Vec<ActionRow>)
    ensures
        ({
            let d = match default {
                Some(s) => s@,
                None => "another_channel"@,
            };
            let another = d == "another_channel"@;
            &&& rows@.len() == if another { 3int } else { 2int }
            &&& is_threader_select(rows@[0], hex_lower(docs.select_id.bytes@), d)
            &&& another ==> is_channel_select(rows@[1], "another_channel"@, None)
            &&& is_action_buttons(
                rows@[rows@.len() - 1],
                hex_lower(docs.execute_id.bytes@),
                hex_lower(docs.close_id.bytes@),
                another,
            )
        }),
{
    let default = match default {
        Some(s) => s,
        None => String::from_str("another_channel"),
    };
    let another = str_eq(default.as_str(), "another_channel");
    let mut components: Vec<ActionRow> = Vec::new();
    components.push(threader_select_menu(docs.select_id.to_hex(), default.as_str()));
    if another {
        components.push(channel_select_menu(String::from_str("another_channel"), None));
    }
    components.push(action_buttons(docs.execute_id.to_hex(), docs.close_id.to_hex(), another));
    components
}

/// Choosing the preselected option of the threader select menu keeps the kind of
/// the configuration it was drawn for, and no other option does; so exactly one
/// option is preselected.
pub proof fn lemma_preselected_option_keeps_kind(c: ThreaderConfiguration, row: ActionRow, custom_id: Seq<char>)
    requires
        is_threader_select(row, custom_id, threader_option_value(c)),
    ensures
        row matches ActionRow::SelectMenu(m) && (m.kind matches crate::ui::components::SelectMenuKind::StringSelect { options } && {
            &&& options@.len() == 3
            &&& forall|i: int| 0 <= i < 3 ==> is_threader_option_value(#[trigger] options@[i].value@)
            &&& forall|i: int| 0 <= i < 3 ==>
                (#[trigger] options@[i].default_selection <==> same_kind(configuration_for_value(options@[i].value@), c))
        }),
{
    reveal_strlit("another_channel");
    reveal_strlit("new_thread");
    reveal_strlit("new_forum_post");
    assert("another_channel"@.len() == 15 && "new_thread"@.len() == 10 && "new_forum_post"@.len() == 14);
    assert("another_channel"@ != "new_thread"@);
    assert("another_channel"@ != "new_forum_post"@);
    assert("new_thread"@ != "new_forum_post"@);
}

} // verus!
