//! The Discord bot: which bot implementation runs, and what its commands say.

use vstd::prelude::*;



pub mod commands;

verus! {

/// Which Discord bot implementation the service starts.
#[derive(Clone, Copy, Debug, PartialEq, Eq, Structural)]
pub enum DiscordBot {
    Serenity,
    Disabled,
}

impl Default for DiscordBot {
    fn default() -> (b: Self)
        ensures
            b == DiscordBot::Serenity,
    {
        DiscordBot::Serenity
    }
}

} // verus!
