//! A plain model of the Discord message components the bot sends, and the rows
//! of the threader configuration UI.

use vstd::prelude::*;

use crate::text::str_eq;
use crate::threader::ThreaderConfiguration;

verus! {

#[derive(Clone, Copy, Debug, PartialEq, Eq, Structural)]
pub enum ButtonStyle {
    Primary,
    Secondary,
}

#[derive(Clone, Copy, Debug, PartialEq, Eq, Structural)]
pub enum ChannelType {
    Text,
    Private,
}

/// One choice of a string select menu.
#[derive(Debug)]
pub struct SelectMenuOption {
    pub label: String,
    pub value: String,
    pub default_selection: bool,
}

/// What a select menu offers.
#[derive(Debug)]
pub enum SelectMenuKind {
    StringSelect { options: Vec<SelectMenuOption> },
    Channel { channel_types: Option<Vec<ChannelType>>, default_channels: Option<Vec<u64>> },
}

#[derive(Debug)]
pub struct SelectMenu {
    pub custom_id: String,
    pub kind: SelectMenuKind,
    pub placeholder: Option<String>,
}

#[derive(Debug)]
pub struct Button {
    pub custom_id: String,
    pub label: String,
    pub style: ButtonStyle,
    pub disabled: bool,
}

/// One row of components under a message.
#[derive(Debug)]
pub enum ActionRow {
    SelectMenu(SelectMenu),
    Buttons(Vec<Button>),
}

/// The option value that stands for the kind of `c`.
pub open spec fn threader_option_value(c: ThreaderConfiguration) -> Seq<char> {
    match c {
        ThreaderConfiguration::AnotherChannel { .. } => "another_channel"@,
        ThreaderConfiguration::NewThread {} => "new_thread"@,
        ThreaderConfiguration::NewForumPost {} => "new_forum_post"@,
    }
}

/// `o` shows `label`, carries `value`, and is preselected exactly when `selected`.
pub open spec fn option_is(o: SelectMenuOption, label: Seq<char>, value: Seq<char>, selected: bool) -> bool {
    &&& o.label@ == label
    &&& o.value@ == value
    &&& o.default_selection == selected
}

/// The three threader choices, in order, with the one whose value is `selected`
/// preselected.
pub open spec fn threader_options_are(options: Seq<SelectMenuOption>, selected: Seq<char>) -> bool {
    &&& options.len() == 3
    &&& option_is(options[0], "別のチャンネルに移動"@, "another_channel"@, selected == "another_channel"@)
    &&& option_is(options[1], "新しいスレッドを作成"@, "new_thread"@, selected == "new_thread"@)
    &&& option_is(options[2], "新しいフォーラム投稿を作成"@, "new_forum_post"@, selected == "new_forum_post"@)
}

/// `row` is the threader select menu with id `custom_id`, preselecting `selected`.
pub open spec fn is_threader_select(row: ActionRow, custom_id: Seq<char>, selected: Seq<char>) -> bool {
    match row {
        ActionRow::SelectMenu(m) => {
            &&& m.custom_id@ == custom_id
            &&& m.placeholder is None
            &&& match m.kind {
                SelectMenuKind::StringSelect { options } => threader_options_are(options@, selected),
                _ => false,
            }
        },
        _ => false,
    }
}

/// `row` is the destination channel menu with id `custom_id`, offering text and
/// private channels, preselecting `default_channels`.
pub open spec fn is_channel_select(row: ActionRow, custom_id: Seq<char>, default_channels: Option<Seq<u64>>) -> bool {
    match row {
        ActionRow::SelectMenu(m) => {
            &&& m.custom_id@ == custom_id
            &&& match m.placeholder {
                Some(p) => p@ == "移動先のチャンネル"@,
                None => false,
            }
            &&& match m.kind {
                SelectMenuKind::Channel { channel_types, default_channels: chosen } => {
                    &&& match channel_types {
                        Some(ts) => ts@ == seq![ChannelType::Text, ChannelType::Private],
                        None => false,
                    }
                    &&& match chosen {
                        Some(v) => default_channels == Some(v@),
                        None => default_channels is None,
                    }
                },
                _ => false,
            }
        },
        _ => false,
    }
}

/// `b` has the given id, label, style and disabled flag.
pub open spec fn button_is(b: Button, custom_id: Seq<char>, label: Seq<char>, style: ButtonStyle, disabled: bool) -> bool {
    &&& b.custom_id@ == custom_id
    &&& b.label@ == label
    &&& b.style == style
    &&& b.disabled == disabled
}

/// `row` holds the execute button (enabled and labelled "run" when the choice is
/// implemented, else disabled and labelled "in progress") and the cancel button.
pub open spec fn is_action_buttons(row: ActionRow, execute_id: Seq<char>, close_id: Seq<char>, implemented: bool) -> bool {
    match row {
        ActionRow::Buttons(bs) => {
            &&& bs@.len() == 2
            &&& button_is(
                bs@[0],
                execute_id,
                if implemented { "実行"@ } else { "(実装中)"@ },
                ButtonStyle::Primary,
                !implemented,
            )
            &&& button_is(bs@[1], close_id, "キャンセル"@, ButtonStyle::Secondary, false)
        },
        _ => false,
    }
}

/// The option value for the kind of `c`.
pub fn threader_option_value_of(c: &ThreaderConfiguration) -> (v: &'static str)
    ensures
        v@ == threader_option_value(*c),
{
    match c {
        ThreaderConfiguration::AnotherChannel { .. } => "another_channel",
        ThreaderConfiguration::NewThread {} => "new_thread",
        ThreaderConfiguration::NewForumPost {} => "new_forum_post",
    }
}

fn option(label: &str, value: &str, selected: &str) -> (o: SelectMenuOption)
    ensures
        option_is(o, label@, value@, selected@ == value@),
{
    SelectMenuOption {
        label: String::from_str(label),
        value: String::from_str(value),
        default_selection: str_eq(selected, value),
    }
}

/// The threader select menu, preselecting the option whose value is `selected`.
pub fn threader_select_menu(custom_id: String, selected: &str) -> (row: ActionRow)
    ensures
        is_threader_select(row, custom_id@, selected@),
{
    let mut options: Vec<SelectMenuOption> = Vec::new();
    options.push(option("別のチャンネルに移動", "another_channel", selected));
    options.push(option("新しいスレッドを作成", "new_thread", selected));
    options.push(option("新しいフォーラム投稿を作成", "new_forum_post", selected));
    ActionRow::SelectMenu(
        SelectMenu { custom_id, kind: SelectMenuKind::StringSelect { options }, placeholder: None },
    )
}

/// The destination channel menu.
pub fn channel_select_menu(custom_id: String, default_channels: Option<Vec<u64>>) -> (row: ActionRow)
    ensures
        is_channel_select(
            row,
            custom_id@,
            match default_channels {
                Some(v) => Some(v@),
                None => None,
            },
        ),
{
    let mut channel_types: Vec<ChannelType> = Vec::new();
    channel_types.push(ChannelType::Text);
    channel_types.push(ChannelType::Private);
    proof {
        assert(channel_types@ =~= seq![ChannelType::Text, ChannelType::Private]);
    }
    ActionRow::SelectMenu(
        SelectMenu {
            custom_id,
            kind: SelectMenuKind::Channel { channel_types: Some(channel_types), default_channels },
            placeholder: Some(String::from_str("移動先のチャンネル")),
        },
    )
}

/// The execute and cancel buttons.
pub fn action_buttons(execute_id: String, close_id: String, implemented: bool) -> (row: ActionRow)
    ensures
        is_action_buttons(row, execute_id@, close_id@, implemented),
{
    let execute = if implemented {
        Button {
            custom_id: execute_id,
            label: String::from_str("実行"),
            style: ButtonStyle::Primary,
            disabled: false,
        }
    } else {
        Button {
            custom_id: execute_id,
            label: String::from_str("(実装中)"),
            style: ButtonStyle::Primary,
            disabled: true,
        }
    };
    let close = Button {
        custom_id: close_id,
        label: String::from_str("キャンセル"),
        style: ButtonStyle::Secondary,
        disabled: false,
    };
    let mut buttons: Vec<Button> = Vec::new();
    buttons.push(execute);
    buttons.push(close);
    ActionRow::Buttons(buttons)
}

} // verus!
