//! The slash-command data model: a command, its recursive option tree, and
//! the choice lists of the three choice-bearing leaf kinds.
//!
//! The option union itself can represent arbitrary nesting; the platform's
//! two-level limit (group, then subcommand, then leaf) is made
//! unrepresentable by the builders in [`crate::builder`], not by this shape.

use vstd::prelude::*;

verus! {

/// Kind tag of a [`Command`].
#[derive(Clone, Copy, Debug, Eq, Hash, PartialEq)]
pub enum CommandType {
    /// A command invoked by name from the chat input.
    ChatInput,
    /// A command invoked on a user.
    User,
    /// A command invoked on a message.
    Message,
}

/// A floating-point choice value, carried as the bit pattern of its IEEE 754
/// double representation. The boundary that speaks the wire format converts;
/// two values are the same choice exactly when their bits are the same.
#[derive(Clone, Copy, Debug, Eq, Hash, PartialEq, Structural)]
pub struct Number(pub u64);

/// One selectable choice of a choice-bearing option: a display label beside
/// the value submitted. The value's type is fixed by the option that owns
/// the list.
#[derive(Clone, Debug, Eq, Hash, PartialEq)]
pub enum CommandOptionChoice {
    String { name: String, value: String },
    Int { name: String, value: i64 },
    Number { name: String, value: Number },
}

/// Data carried by every leaf option without choices.
#[derive(Clone, Debug, Eq, Hash, PartialEq)]
pub struct BaseCommandOptionData {
    /// Description of the option.
    pub description: String,
    /// Name of the option.
    pub name: String,
    /// Whether the option must be completed by a user.
    pub required: bool,
}

/// Data carried by the three choice-bearing leaf kinds.
#[derive(Clone, Debug, Eq, Hash, PartialEq)]
pub struct ChoiceCommandOptionData {
    /// Predetermined choices a user selects from; empty means free input.
    pub choices: Vec<CommandOptionChoice>,
    /// Description of the option.
    pub description: String,
    /// Name of the option.
    pub name: String,
    /// Whether the option must be completed by a user.
    pub required: bool,
}

/// Data carried by the two container kinds.
#[derive(Debug, Eq, PartialEq)]
pub struct OptionsCommandOptionData {
    /// Description of the option.
    pub description: String,
    /// Name of the option.
    pub name: String,
    /// Child options, in the order they were added.
    pub options: Vec<CommandOption>,
    /// Whether the option must be completed by a user.
    pub required: bool,
}

/// One node of a command's option tree: ten kinds, of which two are
/// containers, three are leaves with choice lists, and five are plain
/// leaves.
#[derive(Debug, Eq, PartialEq)]
pub enum CommandOption {
    Boolean(BaseCommandOptionData),
    Channel(BaseCommandOptionData),
    Integer(ChoiceCommandOptionData),
    Mentionable(BaseCommandOptionData),
    Number(ChoiceCommandOptionData),
    Role(BaseCommandOptionData),
    String(ChoiceCommandOptionData),
    SubCommand(OptionsCommandOptionData),
    SubCommandGroup(OptionsCommandOptionData),
    User(BaseCommandOptionData),
}

/// A platform-registered command definition. Immutable once built; the
/// optional identifiers stay absent until the owning integration sets them.
#[derive(Debug, Eq, PartialEq)]
pub struct Command {
    /// Identifier of the owning application, an opaque numeric token.
    pub application_id: Option<u64>,
    /// Default permission flag.
    pub default_permission: Option<bool>,
    /// Description of the command.
    pub description: String,
    /// Identifier of the guild the command is scoped to.
    pub guild_id: Option<u64>,
    /// Identity assigned by the platform.
    pub id: Option<u64>,
    /// Kind tag of the command.
    pub kind: CommandType,
    /// Name of the command.
    pub name: String,
    /// Top-level options, in the order they were added.
    pub options: Vec<CommandOption>,
}

} // verus!
