use interaction_model::builder::{
    BooleanBuilder, ChannelBuilder, CommandBuilder, IntegerBuilder, MentionableBuilder,
    NumberBuilder, RoleBuilder, StringBuilder, SubCommandBuilder, SubCommandGroupBuilder,
    UserBuilder,
};
use interaction_model::command::{
    BaseCommandOptionData, ChoiceCommandOptionData, Command, CommandOption, CommandOptionChoice,
    CommandType, Number, OptionsCommandOptionData,
};

#[test]
fn construct_command_with_builder() {
    let command = CommandBuilder::new(
        "permissions".into(),
        "Get or edit permissions for a user or a role".into(),
        CommandType::ChatInput,
    )
    .option(
        SubCommandGroupBuilder::new("user".into(), "Get or edit permissions for a user".into())
            .option(
                SubCommandBuilder::new("get".into(), "Get permissions for a user".into())
                    .option(
                        UserBuilder::new("user".into(), "The user to get".into())
                            .required(true)
                            .build(),
                    )
                    .option(
                        ChannelBuilder::new(
                            "channel".into(),
                            "The channel permissions to get. If omitted, the guild permissions \
                             will be returned"
                                .into(),
                        )
                        .build(),
                    ),
            )
            .option(
                SubCommandBuilder::new("edit".into(), "Edit permissions for a user".into())
                    .option(
                        UserBuilder::new("user".into(), "The user to edit".into())
                            .required(true)
                            .build(),
                    )
                    .option(
                        ChannelBuilder::new(
                            "channel".into(),
                            "The channel permissions to edit. If omitted, the guild permissions \
                             will be edited"
                                .into(),
                        )
                        .build(),
                    ),
            )
            .build(),
    )
    .option(
        SubCommandGroupBuilder::new("role".into(), "Get or edit permissions for a role".into())
            .option(
                SubCommandBuilder::new("get".into(), "Get permissions for a role".into())
                    .option(
                        RoleBuilder::new("role".into(), "The role to get".into())
                            .required(true)
                            .build(),
                    )
                    .option(
                        ChannelBuilder::new(
                            "channel".into(),
                            "The channel permissions to get. If omitted, the guild permissions \
                             will be returned"
                                .into(),
                        )
                        .build(),
                    ),
            )
            .option(
                SubCommandBuilder::new("edit".into(), "Edit permissions for a role".into())
                    .option(
                        RoleBuilder::new("role".into(), "The role to edit".into())
                            .required(true)
                            .build(),
                    )
                    .option(
                        ChannelBuilder::new(
                            "channel".into(),
                            "The channel permissions to edit. If omitted, the guild permissions \
                             will be edited"
                                .into(),
                        )
                        .build(),
                    )
                    .option(
                        NumberBuilder::new(
                            "position".into(),
                            "The position of the new role".into(),
                        )
                        .build(),
                    ),
            )
            .build(),
    )
    .build();

    let command_manual = Command {
        application_id: None,
        guild_id: None,
        kind: CommandType::ChatInput,
        name: String::from("permissions"),
        default_permission: None,
        description: String::from("Get or edit permissions for a user or a role"),
        id: None,
        options: vec![
            CommandOption::SubCommandGroup(OptionsCommandOptionData {
                description: String::from("Get or edit permissions for a user"),
                name: String::from("user"),
                options: vec![
                    CommandOption::SubCommand(OptionsCommandOptionData {
                        description: String::from("Get permissions for a user"),
                        name: String::from("get"),
                        options: vec![
                            CommandOption::User(BaseCommandOptionData {
                                description: String::from("The user to get"),
                                name: String::from("user"),
                                required: true,
                            }),
                            CommandOption::Channel(BaseCommandOptionData {
                                description: String::from(
                                    "The channel permissions to get. If omitted, the guild \
                                     permissions will be returned",
                                ),
                                name: String::from("channel"),
                                required: false,
                            }),
                        ],
                        required: false,
                    }),
                    CommandOption::SubCommand(OptionsCommandOptionData {
                        description: String::from("Edit permissions for a user"),
                        name: String::from("edit"),
                        options: vec![
                            CommandOption::User(BaseCommandOptionData {
                                description: String::from("The user to edit"),
                                name: String::from("user"),
                                required: true,
                            }),
                            CommandOption::Channel(BaseCommandOptionData {
                                description: String::from(
                                    "The channel permissions to edit. If omitted, the guild \
                                     permissions will be edited",
                                ),
                                name: String::from("channel"),
                                required: false,
                            }),
                        ],
                        required: false,
                    }),
                ],
                required: false,
            }),
            CommandOption::SubCommandGroup(OptionsCommandOptionData {
                description: String::from("Get or edit permissions for a role"),
                name: String::from("role"),
                options: vec![
                    CommandOption::SubCommand(OptionsCommandOptionData {
                        description: String::from("Get permissions for a role"),
                        name: String::from("get"),
                        options: vec![
                            CommandOption::Role(BaseCommandOptionData {
                                description: String::from("The role to get"),
                                name: String::from("role"),
                                required: true,
                            }),
                            CommandOption::Channel(BaseCommandOptionData {
                                description: String::from(
                                    "The channel permissions to get. If omitted, the guild \
                                     permissions will be returned",
                                ),
                                name: String::from("channel"),
                                required: false,
                            }),
                        ],
                        required: false,
                    }),
                    CommandOption::SubCommand(OptionsCommandOptionData {
                        description: String::from("Edit permissions for a role"),
                        name: String::from("edit"),
                        options: vec![
                            CommandOption::Role(BaseCommandOptionData {
                                description: String::from("The role to edit"),
                                name: String::from("role"),
                                required: true,
                            }),
                            CommandOption::Channel(BaseCommandOptionData {
                                description: String::from(
                                    "The channel permissions to edit. If omitted, the guild \
                                     permissions will be edited",
                                ),
                                name: String::from("channel"),
                                required: false,
                            }),
                            CommandOption::Number(ChoiceCommandOptionData {
                                choices: Vec::new(),
                                description: String::from("The position of the new role"),
                                name: String::from("position"),
                                required: false,
                            }),
                        ],
                        required: false,
                    }),
                ],
                required: false,
            }),
        ],
    };

    assert_eq!(command, command_manual);
}

#[test]
fn choice_replacement_last_call_wins() {
    let option = StringBuilder::new("animal".into(), "The type of animal".into())
        .choices(vec![
            ("Dog".into(), "animal_dog".into()),
            ("Cat".into(), "animal_cat".into()),
        ])
        .choices(vec![("Bird".into(), "animal_bird".into())])
        .build();

    assert_eq!(
        option,
        CommandOption::String(ChoiceCommandOptionData {
            choices: vec![CommandOptionChoice::String {
                name: String::from("Bird"),
                value: String::from("animal_bird"),
            }],
            description: String::from("The type of animal"),
            name: String::from("animal"),
            required: false,
        })
    );
}

#[test]
fn nested_builder_composition() {
    let command = CommandBuilder::new(
        "permissions".into(),
        "Get or edit permissions for a user or a role".into(),
        CommandType::ChatInput,
    )
    .option(
        SubCommandGroupBuilder::new("user".into(), "Get or edit permissions for a user".into())
            .option(
                SubCommandBuilder::new("get".into(), "Get permissions for a user".into()).option(
                    UserBuilder::new("user".into(), "The user to get".into())
                        .required(true)
                        .build(),
                ),
            )
            .build(),
    )
    .build();

    assert_eq!(command.options.len(), 1);
    match &command.options[0] {
        CommandOption::SubCommandGroup(group) => {
            assert_eq!(group.name, "user");
            assert_eq!(group.options.len(), 1);
            match &group.options[0] {
                CommandOption::SubCommand(sub) => {
                    assert_eq!(sub.name, "get");
                    assert_eq!(sub.options.len(), 1);
                    match &sub.options[0] {
                        CommandOption::User(user) => {
                            assert_eq!(user.name, "user");
                            assert!(user.required);
                        }
                        other => panic!("expected a user option, got {other:?}"),
                    }
                }
                other => panic!("expected a subcommand, got {other:?}"),
            }
        }
        other => panic!("expected a subcommand group, got {other:?}"),
    }
}

#[test]
fn command_builder_setters_overwrite() {
    let command = CommandBuilder::new(
        "blep".into(),
        "Send a random adorable animal photo".into(),
        CommandType::ChatInput,
    )
    .application_id(1)
    .application_id(41771983423143937)
    .guild_id(197038439483310086)
    .default_permission(true)
    .id(823891239812394)
    .build();

    assert_eq!(command.application_id, Some(41771983423143937));
    assert_eq!(command.guild_id, Some(197038439483310086));
    assert_eq!(command.default_permission, Some(true));
    assert_eq!(command.id, Some(823891239812394));
    assert_eq!(command.name, "blep");
    assert_eq!(command.kind, CommandType::ChatInput);
    assert!(command.options.is_empty());
}

#[test]
fn leaf_builders_build_their_kinds() {
    assert_eq!(
        BooleanBuilder::new("a".into(), "b".into()).build(),
        CommandOption::Boolean(BaseCommandOptionData {
            description: String::from("b"),
            name: String::from("a"),
            required: false,
        })
    );
    assert_eq!(
        MentionableBuilder::new("a".into(), "b".into()).required(true).build(),
        CommandOption::Mentionable(BaseCommandOptionData {
            description: String::from("b"),
            name: String::from("a"),
            required: true,
        })
    );
    assert_eq!(
        CommandOption::from(RoleBuilder::new("a".into(), "b".into())),
        CommandOption::Role(BaseCommandOptionData {
            description: String::from("b"),
            name: String::from("a"),
            required: false,
        })
    );
}

#[test]
fn integer_and_number_choices() {
    let option = IntegerBuilder::new("count".into(), "How many".into())
        .required(true)
        .choices(vec![("One".into(), 1), ("Two".into(), 2)])
        .build();
    assert_eq!(
        option,
        CommandOption::Integer(ChoiceCommandOptionData {
            choices: vec![
                CommandOptionChoice::Int { name: String::from("One"), value: 1 },
                CommandOptionChoice::Int { name: String::from("Two"), value: 2 },
            ],
            description: String::from("How many"),
            name: String::from("count"),
            required: true,
        })
    );

    let half = Number(0.5f64.to_bits());
    let option = NumberBuilder::new("ratio".into(), "How much".into())
        .choices(vec![("Half".into(), half)])
        .build();
    assert_eq!(
        option,
        CommandOption::Number(ChoiceCommandOptionData {
            choices: vec![CommandOptionChoice::Number { name: String::from("Half"), value: half }],
            description: String::from("How much"),
            name: String::from("ratio"),
            required: false,
        })
    );
}
