//! Verified core of the nyaodle Discord bot: identifiers, the move controller,
//! the message grubber and threaders, and the configuration UI model.

pub mod framework;
pub mod text;
pub mod threader;
pub mod grubber;
pub mod controller;
pub mod db;
pub mod event;
pub mod ui;
