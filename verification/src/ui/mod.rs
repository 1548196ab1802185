//! The configuration UI: the message components it shows and the documents
//! behind them.

pub mod components;
pub mod configure_threader;
pub mod configure_threader_interactions;
