//! The interactions stored for the components of a configuration UI.

use vstd::prelude::*;

use crate::framework::object_id::ObjectId;

verus! {

/// What a stored component interaction does, and for which configuration.
#[derive(Clone, Copy, Debug)]
pub enum PendingInteraction {
    SelectThreaders { config_id: ObjectId },
    ExecuteNyaodle { config_id: ObjectId },
    CloseThreadersConfig { config_id: ObjectId },
}

/// The kind of a stored interaction, without its configuration.
#[derive(Clone, Copy, Debug, PartialEq, Eq, Structural)]
pub enum PendingInteractionType {
    SelectThreaders,
    ExecuteNyaodle,
    CloseThreadersConfig,
}

/// The kind of `p`.
pub open spec fn interaction_type(p: PendingInteraction) -> PendingInteractionType {
    match p {
        PendingInteraction::SelectThreaders { .. } => PendingInteractionType::SelectThreaders,
        PendingInteraction::ExecuteNyaodle { .. } => PendingInteractionType::ExecuteNyaodle,
        PendingInteraction::CloseThreadersConfig { .. } => PendingInteractionType::CloseThreadersConfig,
    }
}

/// The configuration `p` belongs to.
pub open spec fn interaction_config_id(p: PendingInteraction) -> ObjectId {
    match p {
        PendingInteraction::SelectThreaders { config_id } => config_id,
        PendingInteraction::ExecuteNyaodle { config_id } => config_id,
        PendingInteraction::CloseThreadersConfig { config_id } => config_id,
    }
}

/// The name a kind is stored under (the `type` field of the stored document).
pub open spec fn stored_type_name(t: PendingInteractionType) -> Seq<char> {
    match t {
        PendingInteractionType::SelectThreaders => "select_threaders"@,
        PendingInteractionType::ExecuteNyaodle => "execute_nyaodle"@,
        PendingInteractionType::CloseThreadersConfig => "close_threaders_config"@,
    }
}

impl PendingInteraction {
    /// The kind of this interaction.
    pub fn interaction_type(&self) -> (t: PendingInteractionType)
        ensures
            t == interaction_type(*self),
    {
        match self {
            PendingInteraction::SelectThreaders { .. } => PendingInteractionType::SelectThreaders,
            PendingInteraction::ExecuteNyaodle { .. } => PendingInteractionType::ExecuteNyaodle,
            PendingInteraction::CloseThreadersConfig { .. } => PendingInteractionType::CloseThreadersConfig,
        }
    }

    /// The configuration this interaction belongs to.
    pub fn config_id(&self) -> (id: ObjectId)
        ensures
            id == interaction_config_id(*self),
    {
        match self {
            PendingInteraction::SelectThreaders { config_id } => *config_id,
            PendingInteraction::ExecuteNyaodle { config_id } => *config_id,
            PendingInteraction::CloseThreadersConfig { config_id } => *config_id,
        }
    }
}

impl PendingInteractionType {
    /// The name this kind is stored under.
    pub fn stored_name(&self) -> (name: &'static str)
        ensures
            name@ == stored_type_name(*self),
    {
        match self {
            PendingInteractionType::SelectThreaders => "select_threaders",
            PendingInteractionType::ExecuteNyaodle => "execute_nyaodle",
            PendingInteractionType::CloseThreadersConfig => "close_threaders_config",
        }
    }
}

/// The stored names of every kind of interaction a configuration UI can have,
/// which closing the UI deletes: the three kinds above, then the destination
/// channel menu's (`change_channel_id`).
pub fn closed_interaction_names() -> (names: Vec<&'static str>)
    ensures
        names@.len() == 4,
        names@[0]@ == stored_type_name(PendingInteractionType::SelectThreaders),
        names@[1]@ == stored_type_name(PendingInteractionType::ExecuteNyaodle),
        names@[2]@ == stored_type_name(PendingInteractionType::CloseThreadersConfig),
        names@[3]@ == "change_channel_id"@,
{
    let mut names: Vec<&'static str> = Vec::new();
    names.push(PendingInteractionType::SelectThreaders.stored_name());
    names.push(PendingInteractionType::ExecuteNyaodle.stored_name());
    names.push(PendingInteractionType::CloseThreadersConfig.stored_name());
    names.push("change_channel_id");
    names
}

} // verus!
