//! The documents behind one configuration UI: its configuration and the ids of the
//! interactions stored for its components.

use vstd::prelude::*;

use crate::db::interaction::PendingInteractionDoc;
use crate::db::threader_configurations::ThreaderConfigurationDoc;
use crate::framework::interactions::{interaction_config_id, interaction_type, PendingInteraction, PendingInteractionType};
use crate::framework::object_id::ObjectId;

verus! {

/// A configuration and the stored interactions of its select menu, execute button
/// and cancel button.
#[derive(Clone, Copy, Debug)]
pub struct ConfigureThreaderDocs {
    pub config: ThreaderConfigurationDoc,
    pub select_id: ObjectId,
    pub execute_id: ObjectId,
    pub close_id: ObjectId,
}

/// The id of the first stored interaction of kind `t` that has an id.
pub open spec fn first_id_of(docs: Seq<PendingInteractionDoc>, t: PendingInteractionType) -> Option<ObjectId>
    decreases docs.len(),
{
    if docs.len() == 0 {
        None
    } else if interaction_type(docs[0].interaction) == t && docs[0].id is Some {
        docs[0].id
    } else {
        first_id_of(docs.drop_first(), t)
    }
}

/// The documents `from_interactions` builds: for each component, the first
/// stored interaction of its kind; `None` when a kind is missing.
pub open spec fn docs_from_interactions(config: ThreaderConfigurationDoc, docs: Seq<PendingInteractionDoc>) -> Option<ConfigureThreaderDocs> {
    match (
        first_id_of(docs, PendingInteractionType::SelectThreaders),
        first_id_of(docs, PendingInteractionType::ExecuteNyaodle),
        first_id_of(docs, PendingInteractionType::CloseThreadersConfig),
    ) {
        (Some(select_id), Some(execute_id), Some(close_id)) => Some(
            ConfigureThreaderDocs { config, select_id, execute_id, close_id },
        ),
        _ => None,
    }
}

/// The interactions stored for a new UI of configuration `config_id`, in the order
/// select menu, execute button, cancel button.
pub open spec fn pending_interactions(config_id: ObjectId) -> Seq<PendingInteraction> {
    seq![
        PendingInteraction::SelectThreaders { config_id },
        PendingInteraction::ExecuteNyaodle { config_id },
        PendingInteraction::CloseThreadersConfig { config_id },
    ]
}

/// The interactions of a new UI all belong to its configuration, and there is one
/// of each kind, in the order select menu, execute button, cancel button.
pub proof fn lemma_pending_interactions_belong(config_id: ObjectId)
    ensures
        pending_interactions(config_id).len() == 3,
        forall|i: int| 0 <= i < 3 ==> interaction_config_id(#[trigger] pending_interactions(config_id)[i]) == config_id,
        interaction_type(pending_interactions(config_id)[0]) == PendingInteractionType::SelectThreaders,
        interaction_type(pending_interactions(config_id)[1]) == PendingInteractionType::ExecuteNyaodle,
        interaction_type(pending_interactions(config_id)[2]) == PendingInteractionType::CloseThreadersConfig,
{
}

/// When some stored document of kind `t` has id `id` and every stored document of
/// that kind with an id has `id`, the first id of that kind is `id`.
proof fn lemma_first_id_unique(docs: Seq<PendingInteractionDoc>, t: PendingInteractionType, id: ObjectId)
    requires
        exists|j: int| 0 <= j < docs.len() && interaction_type(#[trigger] docs[j].interaction) == t && docs[j].id == Some(id),
        forall|j: int| 0 <= j < docs.len() && interaction_type(#[trigger] docs[j].interaction) == t && docs[j].id is Some
            ==> docs[j].id == Some(id),
    ensures
        first_id_of(docs, t) == Some(id),
    decreases docs.len(),
{
    let j = choose|j: int| 0 <= j < docs.len() && interaction_type(#[trigger] docs[j].interaction) == t && docs[j].id == Some(id);
    if interaction_type(docs[0].interaction) == t && docs[0].id is Some {
    } else {
        let rest = docs.drop_first();
        assert(j > 0);
        assert(rest[j - 1] == docs[j]);
        assert forall|m: int| 0 <= m < rest.len() && interaction_type(#[trigger] rest[m].interaction) == t && rest[m].id is Some
            implies rest[m].id == Some(id) by {
            assert(rest[m] == docs[m + 1]);
        }
        lemma_first_id_unique(rest, t, id);
    }
}

/// Creating a configuration UI and looking it up again gives the same documents:
/// when the stored interactions hold the three built by `pending_interactions_for`
/// for the configuration, inserted under `ids` (in that order), and no other
/// document of those kinds with an id, `from_interactions` finds exactly what
/// `from_inserted_ids` built.
pub proof fn lemma_lookup_finds_inserted(
    config: ThreaderConfigurationDoc,
    config_id: ObjectId,
    ids: Seq<ObjectId>,
    stored: Seq<PendingInteractionDoc>,
)
    requires
        ids.len() == 3,
        forall|i: int| #![trigger ids[i]] 0 <= i < 3 ==> exists|j: int| 0 <= j < stored.len() && #[trigger] stored[j].id == Some(ids[i])
            && stored[j].interaction == pending_interactions(config_id)[i],
        forall|i: int, j: int| 0 <= i < 3 && 0 <= j < stored.len() && #[trigger] stored[j].id is Some
            && interaction_type(stored[j].interaction) == interaction_type(#[trigger] pending_interactions(config_id)[i])
            ==> stored[j].id == Some(ids[i]),
    ensures
        docs_from_interactions(config, stored) == Some(
            ConfigureThreaderDocs { config, select_id: ids[0], execute_id: ids[1], close_id: ids[2] },
        ),
{
    let ps = pending_interactions(config_id);
    assert forall|i: int| 0 <= i < 3 implies first_id_of(stored, interaction_type(#[trigger] ps[i])) == Some(ids[i]) by {
        let j = choose|j: int| 0 <= j < stored.len() && #[trigger] stored[j].id == Some(ids[i])
            && stored[j].interaction == ps[i];
        assert(interaction_type(stored[j].interaction) == interaction_type(ps[i]));
        assert forall|m: int| 0 <= m < stored.len() && interaction_type(#[trigger] stored[m].interaction) == interaction_type(ps[i])
            && stored[m].id is Some implies stored[m].id == Some(ids[i]) by {
            assert(stored[m].id is Some);
        }
        lemma_first_id_unique(stored, interaction_type(ps[i]), ids[i]);
    }
    assert(interaction_type(ps[0]) == PendingInteractionType::SelectThreaders);
    assert(interaction_type(ps[1]) == PendingInteractionType::ExecuteNyaodle);
    assert(interaction_type(ps[2]) == PendingInteractionType::CloseThreadersConfig);
}

fn find_first_id(docs: &Vec<PendingInteractionDoc>, t: PendingInteractionType) -> (id: Option<ObjectId>)
    ensures
        id == first_id_of(docs@, t),
{
    let n = docs.len();
    let mut i: usize = 0;
    proof {
        assert(docs@.skip(0) =~= docs@);
    }
    while i < n
        invariant
            n == docs@.len(),
            i <= n,
            first_id_of(docs@, t) == first_id_of(docs@.skip(i as int), t),
        decreases n - i,
    {
        let d = docs[i];
        proof {
            assert(docs@.skip(i as int)[0] == docs@[i as int]);
            assert(docs@.skip(i as int).drop_first() =~= docs@.skip(i + 1));
        }
        if d.interaction.interaction_type() == t && d.id.is_some() {
            return d.id;
        }
        i = i + 1;
    }
    proof {
        assert(docs@.skip(n as int).len() == 0);
    }
    None
}

impl ConfigureThreaderDocs {
    /// The interactions to store for a new UI of configuration `config_id`, in the
    /// order select menu, execute button, cancel button.
    pub fn pending_interactions_for(config_id: ObjectId) -> (ps: Vec<PendingInteraction>)
        ensures
            ps@ == pending_interactions(config_id),
            ps@.len() == 3,
            forall|i: int| 0 <= i < 3 ==> interaction_config_id(#[trigger] ps@[i]) == config_id,
            interaction_type(ps@[0]) == PendingInteractionType::SelectThreaders,
            interaction_type(ps@[1]) == PendingInteractionType::ExecuteNyaodle,
            interaction_type(ps@[2]) == PendingInteractionType::CloseThreadersConfig,
    {
        let mut ps: Vec<PendingInteraction> = Vec::new();
        ps.push(PendingInteraction::SelectThreaders { config_id });
        ps.push(PendingInteraction::ExecuteNyaodle { config_id });
        ps.push(PendingInteraction::CloseThreadersConfig { config_id });
        proof {
            assert(ps@ =~= seq![
                PendingInteraction::SelectThreaders { config_id },
                PendingInteraction::ExecuteNyaodle { config_id },
                PendingInteraction::CloseThreadersConfig { config_id },
            ]);
        }
        ps
    }

    /// The documents of a UI whose three interactions were inserted, in the order of
    /// `pending_interactions_for`, under `ids`.
    pub fn from_inserted_ids(config: ThreaderConfigurationDoc, ids: &Vec<ObjectId>) -> (docs: ConfigureThreaderDocs)
        requires
            ids@.len() == 3,
        ensures
            docs == (ConfigureThreaderDocs {
                config,
                select_id: ids@[0],
                execute_id: ids@[1],
                close_id: ids@[2],
            }),
    {
        ConfigureThreaderDocs { config, select_id: ids[0], execute_id: ids[1], close_id: ids[2] }
    }

    /// The documents of a UI from its configuration and the interactions stored for
    /// it: for each component, the first interaction of its kind; `None` when a kind
    /// is missing.
    pub fn from_interactions(config: ThreaderConfigurationDoc, interactions: &Vec<PendingInteractionDoc>) -> (docs: Option<ConfigureThreaderDocs>)
        ensures
            docs == docs_from_interactions(config, interactions@),
    {
        let select = find_first_id(interactions, PendingInteractionType::SelectThreaders);
        let execute = find_first_id(interactions, PendingInteractionType::ExecuteNyaodle);
        let close = find_first_id(interactions, PendingInteractionType::CloseThreadersConfig);
        match (select, execute, close) {
            (Some(select_id), Some(execute_id), Some(close_id)) => Some(
                ConfigureThreaderDocs { config, select_id, execute_id, close_id },
            ),
            _ => None,
        }
    }
}

} // verus!
