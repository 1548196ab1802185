//! The documents behind the configuration UI whose components carry custom ids,
//! including the destination channel menu.

use vstd::prelude::*;

use crate::db::threader_configurations::ThreaderConfigurationDoc;
use crate::framework::object_id::ObjectId;

verus! {

/// A configuration and the stored interactions of its select menu, execute
/// button, cancel button and destination channel menu.
#[derive(Clone, Copy, Debug)]
pub struct ConfigureThreaderDocs {
    pub config: ThreaderConfigurationDoc,
    pub select_id: ObjectId,
    pub execute_id: ObjectId,
    pub close_id: ObjectId,
    pub change_channel_id: ObjectId,
}

} // verus!
