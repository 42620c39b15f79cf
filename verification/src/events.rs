//! Which handler an incoming interaction goes to.

use vstd::prelude::*;

use crate::text::str_eq;

verus! {

/// The handler of a slash command.
#[derive(PartialEq, Eq, Structural, Clone, Copy, Debug)]
pub enum CommandRoute {
    Team,
    Leaderboard,
    Hero,
    RandomHero,
    Info,
    /// No command has this name: the user is told so.
    Unknown,
}

/// The handler of a button press, by the command whose message holds the button.
#[derive(PartialEq, Eq, Structural, Clone, Copy, Debug)]
pub enum ComponentRoute {
    Leaderboard,
    /// No command with this name has buttons: the user is told so.
    Unknown,
    /// The message came from no command.
    NoInteraction,
}

/// The handler of an autocompletion request.
#[derive(PartialEq, Eq, Structural, Clone, Copy, Debug)]
pub enum AutocompleteRoute {
    Team,
    /// No completions for this command.
    Unknown,
}

/// The handler of the command called `name`.
pub open spec fn command_route(name: Seq<char>) -> CommandRoute {
    if name == "team"@ {
        CommandRoute::Team
    } else if name == "leaderboard"@ {
        CommandRoute::Leaderboard
    } else if name == "hero"@ {
        CommandRoute::Hero
    } else if name == "randomhero"@ {
        CommandRoute::RandomHero
    } else if name == "info"@ {
        CommandRoute::Info
    } else {
        CommandRoute::Unknown
    }
}

/// The event handler: it sends each interaction to the handler of its command.
pub struct Handler;

impl Handler {
    /// The handler of the slash command called `name`.
    pub fn route_command(name: &str) -> (r: CommandRoute)
        ensures
            r == command_route(name@),
    {
        if str_eq(name, "team") {
            CommandRoute::Team
        } else if str_eq(name, "leaderboard") {
            CommandRoute::Leaderboard
        } else if str_eq(name, "hero") {
            CommandRoute::Hero
        } else if str_eq(name, "randomhero") {
            CommandRoute::RandomHero
        } else if str_eq(name, "info") {
            CommandRoute::Info
        } else {
            CommandRoute::Unknown
        }
    }

    /// The handler of a button press on a message that the command called
    /// `name` sent (None when no command sent it).
    pub fn route_component(name: Option<&str>) -> (r: ComponentRoute)
        ensures
            name is None ==> r == ComponentRoute::NoInteraction,
            name matches Some(n) ==> r == (if n@ == "leaderboard"@ {
                ComponentRoute::Leaderboard
            } else {
                ComponentRoute::Unknown
            }),
    {
        match name {
            None => ComponentRoute::NoInteraction,
            Some(n) => if str_eq(n, "leaderboard") {
                ComponentRoute::Leaderboard
            } else {
                ComponentRoute::Unknown
            },
        }
    }

    /// The handler of an autocompletion request for the command called `name`.
    pub fn route_autocomplete(name: &str) -> (r: AutocompleteRoute)
        ensures
            r == (if name@ == "team"@ {
                AutocompleteRoute::Team
            } else {
                AutocompleteRoute::Unknown
            }),
    {
        if str_eq(name, "team") {
            AutocompleteRoute::Team
        } else {
            AutocompleteRoute::Unknown
        }
    }
}

/// Each command name reaches its own handler.
pub proof fn lemma_command_names_route()
    ensures
        command_route("team"@) == CommandRoute::Team,
        command_route("leaderboard"@) == CommandRoute::Leaderboard,
        command_route("hero"@) == CommandRoute::Hero,
        command_route("randomhero"@) == CommandRoute::RandomHero,
        command_route("info"@) == CommandRoute::Info,
{
    reveal_strlit("team");
    reveal_strlit("leaderboard");
    reveal_strlit("hero");
    reveal_strlit("randomhero");
    reveal_strlit("info");
    assert("team"@.len() != "leaderboard"@.len());
    assert("hero"@ != "team"@) by {
        assert("hero"@[0] != "team"@[0]);
    }
    assert("hero"@.len() != "leaderboard"@.len());
    assert("randomhero"@.len() != "team"@.len());
    assert("randomhero"@.len() != "leaderboard"@.len());
    assert("randomhero"@.len() != "hero"@.len());
    assert("info"@ != "team"@) by {
        assert("info"@[0] != "team"@[0]);
    }
    assert("info"@.len() != "leaderboard"@.len());
    assert("info"@ != "hero"@) by {
        assert("info"@[0] != "hero"@[0]);
    }
    assert("info"@.len() != "randomhero"@.len());
}

} // verus!
