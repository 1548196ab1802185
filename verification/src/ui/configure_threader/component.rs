//! The rows of the configuration UI, drawn from the stored configuration.

use vstd::prelude::*;

use crate::framework::custom_id::{custom_id_text, CustomId};
use crate::threader::ThreaderConfiguration;
use crate::ui::components::{
    action_buttons, channel_select_menu, is_action_buttons, is_channel_select, is_threader_select,
    threader_option_value, threader_option_value_of, threader_select_menu, ActionRow,
};
use crate::ui::configure_threader::interactions::ConfigureThreaderDocs;

verus! {

/// The rows of the configuration UI for the stored configuration: the threader
/// select menu preselecting its kind, the destination channel menu (preselecting
/// the chosen channel, if any) for a channel move, and the execute and cancel
/// buttons (execute is disabled for the kinds not yet implemented). Components are
/// named by the custom ids of their interactions.
pub fn configure_threader_component(docs: &ConfigureThreaderDocs) -> (rows: Vec<ActionRow>)
    ensures
        ({
            let c = docs.config.configuration;
            let another = c is AnotherChannel;
            &&& rows@.len() == if another { 3int } else { 2int }
            &&& is_threader_select(rows@[0], custom_id_text(docs.select_id), threader_option_value(c))
            &&& (c matches ThreaderConfiguration::AnotherChannel { channel_id } ==> is_channel_select(
                rows@[1],
                custom_id_text(docs.change_channel_id),
                match channel_id {
                    Some(id) => Some(seq![id]),
                    None => None,
                },
            ))
            &&& is_action_buttons(
                rows@[rows@.len() - 1],
                custom_id_text(docs.execute_id),
                custom_id_text(docs.close_id),
                another,
            )
        }),
{
    let config = &docs.config.configuration;
    let mut components: Vec<ActionRow> = Vec::new();
    components.push(
        threader_select_menu(CustomId(docs.select_id).to_custom_id_string(), threader_option_value_of(config)),
    );
    match config {
        ThreaderConfiguration::AnotherChannel { channel_id } => {
            let default_channels = match channel_id {
                Some(id) => {
                    let mut v: Vec<u64> = Vec::new();
                    v.push(*id);
                    proof {
                        assert(v@ =~= seq![*id]);
                    }
                    Some(v)
                },
                None => None,
            };
            components.push(
                channel_select_menu(CustomId(docs.change_channel_id).to_custom_id_string(), default_channels),
            );
        },
        ThreaderConfiguration::NewThread {} => {},
        ThreaderConfiguration::NewForumPost {} => {},
    }
    let implemented = config.is_another_channel();
    components.push(
        action_buttons(
            CustomId(docs.execute_id).to_custom_id_string(),
            CustomId(docs.close_id).to_custom_id_string(),
            implemented,
        ),
    );
    components
}

} // verus!
