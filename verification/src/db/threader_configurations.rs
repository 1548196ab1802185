//! Stored threader configurations.

use vstd::prelude::*;

use crate::framework::object_id::ObjectId;
use crate::grubber::NyaodleRequest;
use crate::threader::ThreaderConfiguration;

verus! {

/// A stored configuration: its id (absent before it is inserted), the chosen
/// threader, the request it serves, and when it was created (milliseconds since the
/// Unix epoch).
#[derive(Clone, Copy, Debug)]
pub struct ThreaderConfigurationDoc {
    pub id: Option<ObjectId>,
    pub configuration: ThreaderConfiguration,
    pub request: NyaodleRequest,
    pub created_at: i64,
}

impl ThreaderConfigurationDoc {
    /// The configuration a new UI starts with: not yet inserted, with the default
    /// threader.
    pub fn new(request: NyaodleRequest, created_at: i64) -> (doc: ThreaderConfigurationDoc)
        ensures
            doc == (ThreaderConfigurationDoc {
                id: None,
                configuration: ThreaderConfiguration::AnotherChannel { channel_id: None },
                request,
                created_at,
            }),
    {
        ThreaderConfigurationDoc {
            id: None,
            configuration: ThreaderConfiguration::default(),
            request,
            created_at,
        }
    }
}

} // verus!
