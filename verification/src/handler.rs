//! The slash commands of the bot, and which of them an interaction calls
//! for.

use vstd::prelude::*;
use vstd::string::*;

verus! {

/// A slash command that the bot offers.
#[derive(Debug)]
pub struct CommandSpec {
    pub name: String,
    pub description: String,
}

/// What to do about an interaction.
#[derive(Clone, Copy, Debug, PartialEq, Eq, Structural)]
pub enum Dispatch {
    /// Nothing: it is no command, it comes from a bot, or it comes from
    /// outside a guild.
    Ignore,
    /// Start a new game.
    Play,
    /// Say that the bot is online.
    Ping,
    /// Say that there is no such command.
    NotFound,
}

/// What an interaction calls for, given whether it is a command, whether a
/// bot sent it, whether it was sent in a guild, and the name of the
/// command.
pub open spec fn dispatch_of(is_command: bool, from_bot: bool, in_guild: bool, name: Seq<char>)
    -> Dispatch {
    if !is_command || from_bot || !in_guild {
        Dispatch::Ignore
    } else if name == "play"@ {
        Dispatch::Play
    } else if name == "ping"@ {
        Dispatch::Ping
    } else {
        Dispatch::NotFound
    }
}

/// Whether two texts are the same.
fn same_text(a: &str, b: &str) -> (r: bool)
    ensures
        r == (a@ == b@),
{
    String::from_str(a) == String::from_str(b)
}

/// Receives the events of the gateway and decides what they call for.
#[derive(Clone, Copy, Debug)]
pub struct Handler;

impl Handler {
    /// The slash commands to register once the bot is ready: `ping`, then
    /// `play`.
    pub fn ready(&self) -> (r: Vec<CommandSpec>)
        ensures
            r@.len() == 2,
            r@[0].name@ == "ping"@,
            r@[0].description@ == "A command to check if the bot is online."@,
            r@[1].name@ == "play"@,
            r@[1].description@ == "A command to start a new game."@,
    {
        let mut commands: Vec<CommandSpec> = Vec::new();
        commands.push(
            CommandSpec {
                name: String::from_str("ping"),
                description: String::from_str("A command to check if the bot is online."),
            },
        );
        commands.push(
            CommandSpec {
                name: String::from_str("play"),
                description: String::from_str("A command to start a new game."),
            },
        );
        commands
    }

    /// What an interaction calls for. Interactions that are no commands,
    /// that a bot sent, or that were sent outside a guild are ignored; of
    /// the others, `play` starts a game, `ping` is answered, and any other
    /// name is unknown.
    pub fn interaction_create(
        &self,
        is_command: bool,
        from_bot: bool,
        in_guild: bool,
        name: &str,
    ) -> (r: Dispatch)
        ensures
            r == dispatch_of(is_command, from_bot, in_guild, name@),
    {
        if !is_command || from_bot || !in_guild {
            Dispatch::Ignore
        } else if same_text(name, "play") {
            Dispatch::Play
        } else if same_text(name, "ping") {
            Dispatch::Ping
        } else {
            Dispatch::NotFound
        }
    }
}

} // verus!
