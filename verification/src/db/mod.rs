//! What the bot keeps in MongoDB.

pub mod interaction;
pub mod race;
pub mod threader_configurations;

use vstd::prelude::*;

verus! {

/// The collections the bot uses, named for the documents they hold.
#[derive(Clone, Copy, Debug)]
pub struct Collections {}

} // verus!
