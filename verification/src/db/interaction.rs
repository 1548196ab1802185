//! Stored component interactions.

use vstd::prelude::*;

use crate::framework::interactions::PendingInteraction;
use crate::framework::object_id::ObjectId;

verus! {

/// A stored interaction: its id (absent before it is inserted), what it does, and
/// when it was created (milliseconds since the Unix epoch).
#[derive(Clone, Copy, Debug)]
pub struct PendingInteractionDoc {
    pub id: Option<ObjectId>,
    pub interaction: PendingInteraction,
    pub created_at: i64,
}

impl PendingInteractionDoc {
    /// A document for `interaction`, not yet inserted.
    pub fn new(interaction: PendingInteraction, created_at: i64) -> (doc: PendingInteractionDoc)
        ensures
            doc == (PendingInteractionDoc { id: None, interaction, created_at }),
    {
        PendingInteractionDoc { id: None, interaction, created_at }
    }
}

/// Whether a lookup must also delete what it found: only when asked to and when
/// something was found.
pub fn delete_after_find(delete_after: bool, found: &Option<PendingInteraction>) -> (delete: bool)
    ensures
        delete == (delete_after && found is Some),
{
    delete_after && found.is_some()
}

} // verus!
