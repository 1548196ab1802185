//! Races between bot instances: the first instance to record an event handles it,
//! every other instance skips it.

use vstd::prelude::*;

verus! {

/// The kind of event that instances race for.
#[derive(Clone, Copy, Debug, PartialEq, Eq, Structural)]
pub enum RaceKind {
    CommandInvocation,
    ReceiveInteraction,
    InteractionCreateEvent,
}

/// The name a race kind is stored under.
pub open spec fn race_kind_name(k: RaceKind) -> Seq<char> {
    match k {
        RaceKind::CommandInvocation => "command_invocation"@,
        RaceKind::ReceiveInteraction => "receive_interaction"@,
        RaceKind::InteractionCreateEvent => "interaction_create_event"@,
    }
}

/// How the upsert of a race record went.
#[derive(Clone, Copy, Debug, PartialEq, Eq, Structural)]
pub enum RaceOutcome {
    /// The database refused or could not be reached.
    Failed,
    /// This instance created the record: it won the race.
    Inserted,
    /// The record was already there: another instance won.
    Matched,
}

impl RaceKind {
    /// The name this kind is stored under (snake case).
    pub fn name(&self) -> (n: &'static str)
        ensures
            n@ == race_kind_name(*self),
    {
        match self {
            RaceKind::CommandInvocation => "command_invocation",
            RaceKind::ReceiveInteraction => "receive_interaction",
            RaceKind::InteractionCreateEvent => "interaction_create_event",
        }
    }
}

/// Whether this instance must skip the event: only the instance whose upsert
/// created the record handles it; a failed upsert also skips.
pub fn race_skipped(outcome: RaceOutcome) -> (skip: bool)
    ensures
        skip == (outcome != RaceOutcome::Inserted),
{
    match outcome {
        RaceOutcome::Inserted => false,
        _ => true,
    }
}

} // verus!
