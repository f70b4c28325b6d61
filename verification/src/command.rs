//! Application command options and their choices.

use vstd::prelude::*;

verus! {

/// A choice of a command option.
#[derive(Clone, Debug, PartialEq, Eq, Hash)]
#[allow(inconsistent_fields)]
pub enum CommandOptionChoice {
    /// A choice with a text value.
    String { name: String, value: String },
    /// A choice with an integer value.
    Int { name: String, value: i64 },
}

/// Type of a command option.
#[derive(Clone, Copy, Debug, PartialEq, Eq, Hash, Structural)]
pub enum CommandOptionType {
    SubCommand,
    SubCommandGroup,
    String,
    Integer,
    Boolean,
    User,
    Channel,
    Role,
    Mentionable,
    Number,
}

/// An option of an application command.
#[derive(Clone, Debug, PartialEq, Eq, Hash)]
pub struct CommandOption {
    /// Type of the option.
    pub kind: CommandOptionType,
    /// Name of the option.
    pub name: String,
    /// Description of the option.
    pub description: String,
    /// Whether the option must be given.
    pub required: bool,
    /// Whether the option suggests values as the user types.
    pub autocomplete: bool,
    /// Fixed choices of the option.
    pub choices: Vec<CommandOptionChoice>,
}

} // verus!
