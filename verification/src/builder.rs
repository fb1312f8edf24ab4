//! Fluent, ownership-consuming builders for [`Command`] and its option tree.
//!
//! Every fluent call consumes the builder and returns a fresh one, so a
//! finished value can never be mutated through a stale handle. The group
//! builder's composition method accepts subcommand builders only: a group
//! holding another group, or a leaf directly, cannot be expressed through
//! this API at all.

use vstd::prelude::*;
use crate::command::{
    BaseCommandOptionData, ChoiceCommandOptionData, Command, CommandOption, CommandOptionChoice,
    CommandType, Number, OptionsCommandOptionData,
};

verus! {

/// Builder to create a [`Command`].
#[derive(Debug)]
#[must_use]
pub struct CommandBuilder(pub Command);

impl CommandBuilder {
    /// Create a new default [`Command`] builder: no identifiers, no
    /// permission default, no options.
    pub fn new(name: String, description: String, kind: CommandType) -> (b: Self)
        ensures
            b.0.application_id is None,
            b.0.default_permission is None,
            b.0.description == description,
            b.0.guild_id is None,
            b.0.id is None,
            b.0.kind == kind,
            b.0.name == name,
            b.0.options@ == Seq::<CommandOption>::empty(),
    {
        CommandBuilder(
            Command {
                application_id: None,
                default_permission: None,
                description,
                guild_id: None,
                id: None,
                kind,
                name,
                options: Vec::new(),
            },
        )
    }

    /// Consume the builder, returning the [`Command`] exactly as assembled.
    #[must_use]
    pub fn build(self) -> (command: Command)
        ensures
            command == self.0,
    {
        self.0
    }

    /// Set the application ID of the command. Defaults to absent; the last
    /// call wins.
    pub fn application_id(self, application_id: u64) -> (b: Self)
        ensures
            b.0 == (Command { application_id: Some(application_id), ..self.0 }),
    {
        CommandBuilder(Command { application_id: Some(application_id), ..self.0 })
    }

    /// Set the guild ID of the command. Defaults to absent; the last call
    /// wins.
    pub fn guild_id(self, guild_id: u64) -> (b: Self)
        ensures
            b.0 == (Command { guild_id: Some(guild_id), ..self.0 }),
    {
        CommandBuilder(Command { guild_id: Some(guild_id), ..self.0 })
    }

    /// Set the default permission of the command. Defaults to absent; the
    /// last call wins.
    pub fn default_permission(self, default_permission: bool) -> (b: Self)
        ensures
            b.0 == (Command { default_permission: Some(default_permission), ..self.0 }),
    {
        CommandBuilder(Command { default_permission: Some(default_permission), ..self.0 })
    }

    /// Set the ID of the command. Defaults to absent; the last call wins.
    pub fn id(self, id: u64) -> (b: Self)
        ensures
            b.0 == (Command { id: Some(id), ..self.0 }),
    {
        CommandBuilder(Command { id: Some(id), ..self.0 })
    }

    /// Append an option to the command; order is preserved and nothing is
    /// deduplicated.
    pub fn option(self, option: CommandOption) -> (b: Self)
        ensures
            b.0.application_id == self.0.application_id,
            b.0.default_permission == self.0.default_permission,
            b.0.description == self.0.description,
            b.0.guild_id == self.0.guild_id,
            b.0.id == self.0.id,
            b.0.kind == self.0.kind,
            b.0.name == self.0.name,
            b.0.options@ == self.0.options@.push(option),
    {
        let CommandBuilder(mut command) = self;
        command.options.push(option);
        CommandBuilder(command)
    }
}

/// Create a boolean option with a builder.
#[derive(Clone, Debug)]
#[must_use]
pub struct BooleanBuilder(pub BaseCommandOptionData);

impl BooleanBuilder {
    /// Create a new default [`BooleanBuilder`]; `required` defaults to
    /// false.
    pub fn new(name: String, description: String) -> (b: Self)
        ensures
            b.0 == (BaseCommandOptionData { description, name, required: false }),
    {
        BooleanBuilder(BaseCommandOptionData { description, name, required: false })
    }

    /// Consume the builder, returning the built command option.
    #[must_use]
    pub fn build(self) -> (opt: CommandOption)
        ensures
            opt == CommandOption::Boolean(self.0),
    {
        CommandOption::Boolean(self.0)
    }

    /// Set whether this option is required; the last call wins.
    pub fn required(self, required: bool) -> (b: Self)
        ensures
            b.0 == (BaseCommandOptionData { required, ..self.0 }),
    {
        BooleanBuilder(BaseCommandOptionData { required, ..self.0 })
    }
}

impl From<BooleanBuilder> for CommandOption {
    fn from(builder: BooleanBuilder) -> (opt: CommandOption) {
        builder.build()
    }
}

impl vstd::std_specs::convert::FromSpecImpl<BooleanBuilder> for CommandOption {
    open spec fn obeys_from_spec() -> bool {
        true
    }

    open spec fn from_spec(v: BooleanBuilder) -> Self {
        CommandOption::Boolean(v.0)
    }
}

/// Create a channel option with a builder.
#[derive(Clone, Debug)]
#[must_use]
pub struct ChannelBuilder(pub BaseCommandOptionData);

impl ChannelBuilder {
    /// Create a new default [`ChannelBuilder`]; `required` defaults to
    /// false.
    pub fn new(name: String, description: String) -> (b: Self)
        ensures
            b.0 == (BaseCommandOptionData { description, name, required: false }),
    {
        ChannelBuilder(BaseCommandOptionData { description, name, required: false })
    }

    /// Consume the builder, returning the built command option.
    #[must_use]
    pub fn build(self) -> (opt: CommandOption)
        ensures
            opt == CommandOption::Channel(self.0),
    {
        CommandOption::Channel(self.0)
    }

    /// Set whether this option is required; the last call wins.
    pub fn required(self, required: bool) -> (b: Self)
        ensures
            b.0 == (BaseCommandOptionData { required, ..self.0 }),
    {
        ChannelBuilder(BaseCommandOptionData { required, ..self.0 })
    }
}

impl From<ChannelBuilder> for CommandOption {
    fn from(builder: ChannelBuilder) -> (opt: CommandOption) {
        builder.build()
    }
}

impl vstd::std_specs::convert::FromSpecImpl<ChannelBuilder> for CommandOption {
    open spec fn obeys_from_spec() -> bool {
        true
    }

    open spec fn from_spec(v: ChannelBuilder) -> Self {
        CommandOption::Channel(v.0)
    }
}

/// Create an integer option with a builder.
#[derive(Clone, Debug)]
#[must_use]
pub struct IntegerBuilder(pub ChoiceCommandOptionData);

impl IntegerBuilder {
    /// Create a new default [`IntegerBuilder`]: no choices, `required`
    /// defaults to false.
    pub fn new(name: String, description: String) -> (b: Self)
        ensures
            b.0.choices@ == Seq::<CommandOptionChoice>::empty(),
            b.0.description == description,
            b.0.name == name,
            !b.0.required,
    {
        IntegerBuilder(
            ChoiceCommandOptionData { choices: Vec::new(), description, name, required: false },
        )
    }

    /// Consume the builder, returning the built command option.
    #[must_use]
    pub fn build(self) -> (opt: CommandOption)
        ensures
            opt == CommandOption::Integer(self.0),
    {
        CommandOption::Integer(self.0)
    }

    /// Set the list of choices, as pairs of display name and integer value.
    /// The list replaces any earlier one: the last call wins.
    pub fn choices(self, choices: Vec<(String, i64)>) -> (b: Self)
        ensures
            b.0.choices@ == choices@.map_values(
                |c: (String, i64)| CommandOptionChoice::Int { name: c.0, value: c.1 },
            ),
            b.0.description == self.0.description,
            b.0.name == self.0.name,
            b.0.required == self.0.required,
    {
        let ghost orig = choices@;
        let mut input = choices;
        let mut list: Vec<CommandOptionChoice> = Vec::new();
        while input.len() > 0
            invariant
                list@.len() + input@.len() == orig.len(),
                forall|i: int| 0 <= i < list@.len() ==> list@[i] == (CommandOptionChoice::Int {
                    name: orig[i].0,
                    value: orig[i].1,
                }),
                forall|i: int| 0 <= i < input@.len() ==> input@[i] == orig[list@.len() + i],
            decreases input.len(),
        {
            let (name, value) = input.remove(0);
            list.push(CommandOptionChoice::Int { name, value });
        }
        proof {
            assert(list@ =~= orig.map_values(
                |c: (String, i64)| CommandOptionChoice::Int { name: c.0, value: c.1 },
            ));
        }
        IntegerBuilder(ChoiceCommandOptionData { choices: list, ..self.0 })
    }

    /// Set whether this option is required; the last call wins.
    pub fn required(self, required: bool) -> (b: Self)
        ensures
            b.0 == (ChoiceCommandOptionData { required, ..self.0 }),
    {
        IntegerBuilder(ChoiceCommandOptionData { required, ..self.0 })
    }
}

impl From<IntegerBuilder> for CommandOption {
    fn from(builder: IntegerBuilder) -> (opt: CommandOption) {
        builder.build()
    }
}

impl vstd::std_specs::convert::FromSpecImpl<IntegerBuilder> for CommandOption {
    open spec fn obeys_from_spec() -> bool {
        true
    }

    open spec fn from_spec(v: IntegerBuilder) -> Self {
        CommandOption::Integer(v.0)
    }
}

/// Create a mentionable option with a builder.
#[derive(Clone, Debug)]
#[must_use]
pub struct MentionableBuilder(pub BaseCommandOptionData);

impl MentionableBuilder {
    /// Create a new default [`MentionableBuilder`]; `required` defaults to
    /// false.
    pub fn new(name: String, description: String) -> (b: Self)
        ensures
            b.0 == (BaseCommandOptionData { description, name, required: false }),
    {
        MentionableBuilder(BaseCommandOptionData { description, name, required: false })
    }

    /// Consume the builder, returning the built command option.
    #[must_use]
    pub fn build(self) -> (opt: CommandOption)
        ensures
            opt == CommandOption::Mentionable(self.0),
    {
        CommandOption::Mentionable(self.0)
    }

    /// Set whether this option is required; the last call wins.
    pub fn required(self, required: bool) -> (b: Self)
        ensures
            b.0 == (BaseCommandOptionData { required, ..self.0 }),
    {
        MentionableBuilder(BaseCommandOptionData { required, ..self.0 })
    }
}

impl From<MentionableBuilder> for CommandOption {
    fn from(builder: MentionableBuilder) -> (opt: CommandOption) {
        builder.build()
    }
}

impl vstd::std_specs::convert::FromSpecImpl<MentionableBuilder> for CommandOption {
    open spec fn obeys_from_spec() -> bool {
        true
    }

    open spec fn from_spec(v: MentionableBuilder) -> Self {
        CommandOption::Mentionable(v.0)
    }
}

/// Create a [`Number`] option with a builder.
#[derive(Clone, Debug)]
#[must_use]
pub struct NumberBuilder(pub ChoiceCommandOptionData);

impl NumberBuilder {
    /// Create a new default [`NumberBuilder`]: no choices, `required`
    /// defaults to false.
    pub fn new(name: String, description: String) -> (b: Self)
        ensures
            b.0.choices@ == Seq::<CommandOptionChoice>::empty(),
            b.0.description == description,
            b.0.name == name,
            !b.0.required,
    {
        NumberBuilder(
            ChoiceCommandOptionData { choices: Vec::new(), description, name, required: false },
        )
    }

    /// Consume the builder, returning the built command option.
    #[must_use]
    pub fn build(self) -> (opt: CommandOption)
        ensures
            opt == CommandOption::Number(self.0),
    {
        CommandOption::Number(self.0)
    }

    /// Set the list of choices, as pairs of display name and numeric value.
    /// The list replaces any earlier one: the last call wins.
    pub fn choices(self, choices: Vec<(String, Number)>) -> (b: Self)
        ensures
            b.0.choices@ == choices@.map_values(
                |c: (String, Number)| CommandOptionChoice::Number { name: c.0, value: c.1 },
            ),
            b.0.description == self.0.description,
            b.0.name == self.0.name,
            b.0.required == self.0.required,
    {
        let ghost orig = choices@;
        let mut input = choices;
        let mut list: Vec<CommandOptionChoice> = Vec::new();
        while input.len() > 0
            invariant
                list@.len() + input@.len() == orig.len(),
                forall|i: int| 0 <= i < list@.len() ==> list@[i] == (CommandOptionChoice::Number {
                    name: orig[i].0,
                    value: orig[i].1,
                }),
                forall|i: int| 0 <= i < input@.len() ==> input@[i] == orig[list@.len() + i],
            decreases input.len(),
        {
            let (name, value) = input.remove(0);
            list.push(CommandOptionChoice::Number { name, value });
        }
        proof {
            assert(list@ =~= orig.map_values(
                |c: (String, Number)| CommandOptionChoice::Number { name: c.0, value: c.1 },
            ));
        }
        NumberBuilder(ChoiceCommandOptionData { choices: list, ..self.0 })
    }

    /// Set whether this option is required; the last call wins.
    pub fn required(self, required: bool) -> (b: Self)
        ensures
            b.0 == (ChoiceCommandOptionData { required, ..self.0 }),
    {
        NumberBuilder(ChoiceCommandOptionData { required, ..self.0 })
    }
}

impl From<NumberBuilder> for CommandOption {
    fn from(builder: NumberBuilder) -> (opt: CommandOption) {
        builder.build()
    }
}

impl vstd::std_specs::convert::FromSpecImpl<NumberBuilder> for CommandOption {
    open spec fn obeys_from_spec() -> bool {
        true
    }

    open spec fn from_spec(v: NumberBuilder) -> Self {
        CommandOption::Number(v.0)
    }
}

/// Create a role option with a builder.
#[derive(Clone, Debug)]
#[must_use]
pub struct RoleBuilder(pub BaseCommandOptionData);

impl RoleBuilder {
    /// Create a new default [`RoleBuilder`]; `required` defaults to false.
    pub fn new(name: String, description: String) -> (b: Self)
        ensures
            b.0 == (BaseCommandOptionData { description, name, required: false }),
    {
        RoleBuilder(BaseCommandOptionData { description, name, required: false })
    }

    /// Consume the builder, returning the built command option.
    #[must_use]
    pub fn build(self) -> (opt: CommandOption)
        ensures
            opt == CommandOption::Role(self.0),
    {
        CommandOption::Role(self.0)
    }

    /// Set whether this option is required; the last call wins.
    pub fn required(self, required: bool) -> (b: Self)
        ensures
            b.0 == (BaseCommandOptionData { required, ..self.0 }),
    {
        RoleBuilder(BaseCommandOptionData { required, ..self.0 })
    }
}

impl From<RoleBuilder> for CommandOption {
    fn from(builder: RoleBuilder) -> (opt: CommandOption) {
        builder.build()
    }
}

impl vstd::std_specs::convert::FromSpecImpl<RoleBuilder> for CommandOption {
    open spec fn obeys_from_spec() -> bool {
        true
    }

    open spec fn from_spec(v: RoleBuilder) -> Self {
        CommandOption::Role(v.0)
    }
}

/// Create a string option with a builder.
#[derive(Clone, Debug)]
#[must_use]
pub struct StringBuilder(pub ChoiceCommandOptionData);

impl StringBuilder {
    /// Create a new default [`StringBuilder`]: no choices, `required`
    /// defaults to false.
    pub fn new(name: String, description: String) -> (b: Self)
        ensures
            b.0.choices@ == Seq::<CommandOptionChoice>::empty(),
            b.0.description == description,
            b.0.name == name,
            !b.0.required,
    {
        StringBuilder(
            ChoiceCommandOptionData { choices: Vec::new(), description, name, required: false },
        )
    }

    /// Consume the builder, returning the built command option.
    #[must_use]
    pub fn build(self) -> (opt: CommandOption)
        ensures
            opt == CommandOption::String(self.0),
    {
        CommandOption::String(self.0)
    }

    /// Set the list of choices, as pairs of display name and string value.
    /// The list replaces any earlier one: the last call wins.
    pub fn choices(self, choices: Vec<(String, String)>) -> (b: Self)
        ensures
            b.0.choices@ == choices@.map_values(
                |c: (String, String)| CommandOptionChoice::String { name: c.0, value: c.1 },
            ),
            b.0.description == self.0.description,
            b.0.name == self.0.name,
            b.0.required == self.0.required,
    {
        let ghost orig = choices@;
        let mut input = choices;
        let mut list: Vec<CommandOptionChoice> = Vec::new();
        while input.len() > 0
            invariant
                list@.len() + input@.len() == orig.len(),
                forall|i: int| 0 <= i < list@.len() ==> list@[i] == (CommandOptionChoice::String {
                    name: orig[i].0,
                    value: orig[i].1,
                }),
                forall|i: int| 0 <= i < input@.len() ==> input@[i] == orig[list@.len() + i],
            decreases input.len(),
        {
            let (name, value) = input.remove(0);
            list.push(CommandOptionChoice::String { name, value });
        }
        proof {
            assert(list@ =~= orig.map_values(
                |c: (String, String)| CommandOptionChoice::String { name: c.0, value: c.1 },
            ));
        }
        StringBuilder(ChoiceCommandOptionData { choices: list, ..self.0 })
    }

    /// Set whether this option is required; the last call wins.
    pub fn required(self, required: bool) -> (b: Self)
        ensures
            b.0 == (ChoiceCommandOptionData { required, ..self.0 }),
    {
        StringBuilder(ChoiceCommandOptionData { required, ..self.0 })
    }
}

impl From<StringBuilder> for CommandOption {
    fn from(builder: StringBuilder) -> (opt: CommandOption) {
        builder.build()
    }
}

impl vstd::std_specs::convert::FromSpecImpl<StringBuilder> for CommandOption {
    open spec fn obeys_from_spec() -> bool {
        true
    }

    open spec fn from_spec(v: StringBuilder) -> Self {
        CommandOption::String(v.0)
    }
}

/// Create a subcommand option with a builder.
#[derive(Debug)]
#[must_use]
pub struct SubCommandBuilder(pub OptionsCommandOptionData);

impl SubCommandBuilder {
    /// Create a new default [`SubCommandBuilder`]: no child options.
    pub fn new(name: String, description: String) -> (b: Self)
        ensures
            b.0.description == description,
            b.0.name == name,
            b.0.options@ == Seq::<CommandOption>::empty(),
            !b.0.required,
    {
        SubCommandBuilder(
            OptionsCommandOptionData { description, name, options: Vec::new(), required: false },
        )
    }

    /// Consume the builder, returning the built command option.
    #[must_use]
    pub fn build(self) -> (opt: CommandOption)
        ensures
            opt == CommandOption::SubCommand(self.0),
    {
        CommandOption::SubCommand(self.0)
    }

    /// Append an option to the subcommand; order is preserved and nothing is
    /// deduplicated.
    pub fn option(self, option: CommandOption) -> (b: Self)
        ensures
            b.0.description == self.0.description,
            b.0.name == self.0.name,
            b.0.options@ == self.0.options@.push(option),
            b.0.required == self.0.required,
    {
        let SubCommandBuilder(mut data) = self;
        data.options.push(option);
        SubCommandBuilder(data)
    }
}

impl From<SubCommandBuilder> for CommandOption {
    fn from(builder: SubCommandBuilder) -> (opt: CommandOption) {
        builder.build()
    }
}

impl vstd::std_specs::convert::FromSpecImpl<SubCommandBuilder> for CommandOption {
    open spec fn obeys_from_spec() -> bool {
        true
    }

    open spec fn from_spec(v: SubCommandBuilder) -> Self {
        CommandOption::SubCommand(v.0)
    }
}

/// Whether a built option obeys the platform's nesting limit at the group
/// level: a group's children are subcommands, nothing else.
pub open spec fn group_well_nested(opt: CommandOption) -> bool {
    opt matches CommandOption::SubCommandGroup(data) ==> forall|i: int|
        0 <= i < data.options@.len() ==> data.options@[i] is SubCommand
}

/// Create a subcommand group option with a builder.
///
/// Its composition method accepts [`SubCommandBuilder`] alone — not the
/// general option union and not leaf builders — so the two-level nesting
/// limit is enforced by what can be called, not by a runtime check.
#[derive(Debug)]
#[must_use]
pub struct SubCommandGroupBuilder(pub OptionsCommandOptionData);

impl SubCommandGroupBuilder {
    /// Every child collected so far is a subcommand. `new` establishes this
    /// and every fluent call preserves it.
    pub open spec fn wf(self) -> bool {
        forall|i: int| 0 <= i < self.0.options@.len() ==> self.0.options@[i] is SubCommand
    }

    /// Create a new default [`SubCommandGroupBuilder`]: no subcommands.
    pub fn new(name: String, description: String) -> (b: Self)
        ensures
            b.0.description == description,
            b.0.name == name,
            b.0.options@ == Seq::<CommandOption>::empty(),
            !b.0.required,
            b.wf(),
    {
        SubCommandGroupBuilder(
            OptionsCommandOptionData { description, name, options: Vec::new(), required: false },
        )
    }

    /// Consume the builder, returning the built command option. A builder
    /// assembled through this API yields a group whose children are all
    /// subcommands.
    #[must_use]
    pub fn build(self) -> (opt: CommandOption)
        ensures
            opt == CommandOption::SubCommandGroup(self.0),
            self.wf() ==> group_well_nested(opt),
    {
        CommandOption::SubCommandGroup(self.0)
    }

    /// Append a subcommand to the group; order is preserved and nothing is
    /// deduplicated. Only a subcommand builder is accepted here.
    pub fn option(self, option: SubCommandBuilder) -> (b: Self)
        ensures
            b.0.description == self.0.description,
            b.0.name == self.0.name,
            b.0.options@ == self.0.options@.push(CommandOption::SubCommand(option.0)),
            b.0.required == self.0.required,
            self.wf() ==> b.wf(),
    {
        let SubCommandGroupBuilder(mut data) = self;
        data.options.push(option.build());
        SubCommandGroupBuilder(data)
    }
}

impl From<SubCommandGroupBuilder> for CommandOption {
    fn from(builder: SubCommandGroupBuilder) -> (opt: CommandOption) {
        builder.build()
    }
}

impl vstd::std_specs::convert::FromSpecImpl<SubCommandGroupBuilder> for CommandOption {
    open spec fn obeys_from_spec() -> bool {
        true
    }

    open spec fn from_spec(v: SubCommandGroupBuilder) -> Self {
        CommandOption::SubCommandGroup(v.0)
    }
}

/// Law: the nesting limit. A group assembled through the builder API holds
/// subcommands only — never another group and never a leaf option — so no
/// tree deeper than group, subcommand, leaf can be produced.
pub proof fn lemma_group_nesting_limit(g: SubCommandGroupBuilder)
    requires
        g.wf(),
    ensures
        forall|i: int| 0 <= i < g.0.options@.len() ==> g.0.options@[i] is SubCommand,
        forall|i: int| 0 <= i < g.0.options@.len() ==> !(g.0.options@[i] is SubCommandGroup),
{
}

/// Create a user option with a builder.
#[derive(Clone, Debug)]
#[must_use]
pub struct UserBuilder(pub BaseCommandOptionData);

impl UserBuilder {
    /// Create a new default [`UserBuilder`]; `required` defaults to false.
    pub fn new(name: String, description: String) -> (b: Self)
        ensures
            b.0 == (BaseCommandOptionData { description, name, required: false }),
    {
        UserBuilder(BaseCommandOptionData { description, name, required: false })
    }

    /// Consume the builder, returning the built command option.
    #[must_use]
    pub fn build(self) -> (opt: CommandOption)
        ensures
            opt == CommandOption::User(self.0),
    {
        CommandOption::User(self.0)
    }

    /// Set whether this option is required; the last call wins.
    pub fn required(self, required: bool) -> (b: Self)
        ensures
            b.0 == (BaseCommandOptionData { required, ..self.0 }),
    {
        UserBuilder(BaseCommandOptionData { required, ..self.0 })
    }
}

impl From<UserBuilder> for CommandOption {
    fn from(builder: UserBuilder) -> (opt: CommandOption) {
        builder.build()
    }
}

impl vstd::std_specs::convert::FromSpecImpl<UserBuilder> for CommandOption {
    open spec fn obeys_from_spec() -> bool {
        true
    }

    open spec fn from_spec(v: UserBuilder) -> Self {
        CommandOption::User(v.0)
    }
}

} // verus!
