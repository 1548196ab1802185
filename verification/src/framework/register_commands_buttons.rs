//! Who may register the bot's application commands.

use vstd::prelude::*;

verus! {

/// What the `register` command does.
#[derive(Clone, Copy, Debug, PartialEq, Eq, Structural)]
pub enum RegisterDecision {
    /// Another instance took the command.
    Skip,
    /// The command came from outside the admin guild.
    IgnoreNonAdmin,
    /// Show the registration buttons.
    Register,
}

/// Decides the `register` command: skipped when another instance took it, else
/// allowed only from the admin guild.
pub fn register_decision(skip: bool, guild_id: Option<u64>, admin_guild_id: u64) -> (d: RegisterDecision)
    ensures
        d == if skip {
            RegisterDecision::Skip
        } else if guild_id == Some(admin_guild_id) {
            RegisterDecision::Register
        } else {
            RegisterDecision::IgnoreNonAdmin
        },
{
    if skip {
        return RegisterDecision::Skip;
    }
    match guild_id {
        Some(g) => {
            if g == admin_guild_id {
                RegisterDecision::Register
            } else {
                RegisterDecision::IgnoreNonAdmin
            }
        },
        None => RegisterDecision::IgnoreNonAdmin,
    }
}

} // verus!
