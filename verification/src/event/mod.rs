//! Routing of Discord gateway events.

pub mod component_interaction;

use vstd::prelude::*;

verus! {

/// The kind of an incoming interaction.
#[derive(Clone, Copy, Debug, PartialEq, Eq, Structural)]
pub enum InteractionKind {
    Component,
    Command,
    Other,
}

/// What the event handler does with an interaction.
#[derive(Clone, Copy, Debug, PartialEq, Eq, Structural)]
pub enum EventRoute {
    /// Another instance won the race for it.
    Skip,
    /// Look up the stored interaction named by the component's custom id.
    LookUpComponent,
    /// Commands are handled by the command framework.
    Ignore,
    /// Nothing handles it; report it.
    ReportUnhandled,
}

/// Routes an interaction: skipped when another instance took it, else by kind.
pub fn route_interaction(skip: bool, kind: InteractionKind) -> (route: EventRoute)
    ensures
        skip ==> route == EventRoute::Skip,
        !skip ==> route == match kind {
            InteractionKind::Component => EventRoute::LookUpComponent,
            InteractionKind::Command => EventRoute::Ignore,
            InteractionKind::Other => EventRoute::ReportUnhandled,
        },
{
    if skip {
        return EventRoute::Skip;
    }
    match kind {
        InteractionKind::Component => EventRoute::LookUpComponent,
        InteractionKind::Command => EventRoute::Ignore,
        InteractionKind::Other => EventRoute::ReportUnhandled,
    }
}

} // verus!
