//! Dispatch of a component interaction to the handler of its stored kind.

use vstd::prelude::*;

use crate::framework::interactions::PendingInteraction;

verus! {

/// The handlers of the configuration UI.
#[derive(Clone, Copy, Debug, PartialEq, Eq, Structural)]
pub enum ComponentHandler {
    UpdateThreaderSelection,
    ExecuteNyaodle,
    CloseThreadersConfig,
}

/// The handler that serves a stored interaction.
pub fn handler_for(interaction: &PendingInteraction) -> (h: ComponentHandler)
    ensures
        h == match *interaction {
            PendingInteraction::SelectThreaders { .. } => ComponentHandler::UpdateThreaderSelection,
            PendingInteraction::ExecuteNyaodle { .. } => ComponentHandler::ExecuteNyaodle,
            PendingInteraction::CloseThreadersConfig { .. } => ComponentHandler::CloseThreadersConfig,
        },
{
    match interaction {
        PendingInteraction::SelectThreaders { .. } => ComponentHandler::UpdateThreaderSelection,
        PendingInteraction::ExecuteNyaodle { .. } => ComponentHandler::ExecuteNyaodle,
        PendingInteraction::CloseThreadersConfig { .. } => ComponentHandler::CloseThreadersConfig,
    }
}

} // verus!
