//! The three operations a user can ask for.

use vstd::prelude::*;

verus! {

/// One user request, with the data it needs.
#[derive(Clone, Debug, PartialEq, Eq)]
pub enum Command {
    /// Add the mapping `short_name -> destination`.
    Create { destination: String, short_name: String },
    /// Fetch every mapping.
    List,
    /// Remove the mapping of `short_name`.
    Delete { short_name: String },
}

/// Mathematical counterpart of `Command`.
pub enum CommandModel {
    Create { destination: Seq<char>, short_name: Seq<char> },
    List,
    Delete { short_name: Seq<char> },
}

impl View for Command {
    type V = CommandModel;

    open spec fn view(&self) -> CommandModel {
        match self {
            Command::Create { destination, short_name } => CommandModel::Create {
                destination: destination@,
                short_name: short_name@,
            },
            Command::List => CommandModel::List,
            Command::Delete { short_name } => CommandModel::Delete { short_name: short_name@ },
        }
    }
}

/// The command named by a parsed subcommand and its positional arguments:
/// `new` takes a link and a short name, `list` nothing, `delete` a short name.
pub open spec fn command_spec(
    name: Seq<char>,
    link: Option<Seq<char>>,
    short: Option<Seq<char>>,
) -> Option<CommandModel> {
    if name == "new"@ {
        match (link, short) {
            (Some(l), Some(s)) => Some(CommandModel::Create { destination: l, short_name: s }),
            _ => None,
        }
    } else if name == "list"@ {
        Some(CommandModel::List)
    } else if name == "delete"@ {
        match short {
            Some(s) => Some(CommandModel::Delete { short_name: s }),
            None => None,
        }
    } else {
        None
    }
}

impl Command {
    /// Builds the command for the subcommand `name` with the arguments that
    /// were given; `None` for an unknown subcommand or a missing argument.
    pub fn from_subcommand(name: &str, link: Option<&str>, short: Option<&str>) -> (r: Option<Command>)
        ensures
            match r {
                Some(c) => command_spec(name@, link.deep_view(), short.deep_view()) == Some(c@),
                None => command_spec(name@, link.deep_view(), short.deep_view()) is None,
            },
    {
        let name = String::from_str(name);
        if name == String::from_str("new") {
            match (link, short) {
                (Some(l), Some(s)) => Some(
                    Command::Create { destination: String::from_str(l), short_name: String::from_str(s) },
                ),
                _ => None,
            }
        } else if name == String::from_str("list") {
            Some(Command::List)
        } else if name == String::from_str("delete") {
            match short {
                Some(s) => Some(Command::Delete { short_name: String::from_str(s) }),
                None => None,
            }
        } else {
            None
        }
    }
}

} // verus!
