pub mod custom_id;
pub mod interactions;
pub mod object_id;
pub mod register_commands_buttons;
