//! What the bot is configured with: the variables it needs, and the poll
//! interval among them.

use crate::text::{decimal_value, parse_decimal};
use vstd::prelude::*;

verus! {

/// A variable that the bot cannot run without.
#[derive(Clone, Copy, Debug, PartialEq, Eq, Structural)]
pub enum Variable {
    /// The time between two polls of the voice channel, in milliseconds.
    CooldownTimeMs,
    /// The token that the bot logs in with.
    DiscordToken,
}

impl Variable {
    /// The name of the variable in the environment.
    pub open spec fn name_text(self) -> Seq<char> {
        match self {
            Variable::CooldownTimeMs => "COOLDOWN_TIME_MS"@,
            Variable::DiscordToken => "DISCORD_TOKEN"@,
        }
    }

    /// The name of the variable in the environment.
    pub fn name(self) -> (r: &'static str)
        ensures
            r@ == self.name_text(),
    {
        match self {
            Variable::CooldownTimeMs => "COOLDOWN_TIME_MS",
            Variable::DiscordToken => "DISCORD_TOKEN",
        }
    }
}

/// Whether the environment holds what the bot needs, given which of the
/// variables are set: the first one that is missing, the poll interval
/// before the token, if one is.
pub fn is_env_valid(cooldown_set: bool, token_set: bool) -> (r: Result<(), Variable>)
    ensures
        r is Ok <==> cooldown_set && token_set,
        !cooldown_set ==> r == Err::<(), Variable>(Variable::CooldownTimeMs),
        cooldown_set && !token_set ==> r == Err::<(), Variable>(Variable::DiscordToken),
{
    if !cooldown_set {
        Err(Variable::CooldownTimeMs)
    } else if !token_set {
        Err(Variable::DiscordToken)
    } else {
        Ok(())
    }
}

/// The poll interval in milliseconds that a setting writes, if it writes a
/// number in decimal.
pub fn get_cooldown_time_ms(setting: &str) -> (r: Option<u64>)
    ensures
        r == decimal_value(setting@),
{
    parse_decimal(setting)
}

} // verus!
