use pi_interactive::commands::SlashCommand;

#[test]
fn slash_command_parse_known_commands() {
    assert!(matches!(
        SlashCommand::parse("/help"),
        Some((SlashCommand::Help, ""))
    ));
    assert!(matches!(
        SlashCommand::parse("/h"),
        Some((SlashCommand::Help, ""))
    ));
    assert!(matches!(
        SlashCommand::parse("/?"),
        Some((SlashCommand::Help, ""))
    ));
    assert!(matches!(
        SlashCommand::parse("/exit"),
        Some((SlashCommand::Exit, ""))
    ));
    assert!(matches!(
        SlashCommand::parse("/quit"),
        Some((SlashCommand::Exit, ""))
    ));
    assert!(matches!(
        SlashCommand::parse("/q"),
        Some((SlashCommand::Exit, ""))
    ));
    assert!(matches!(
        SlashCommand::parse("/clear"),
        Some((SlashCommand::Clear, ""))
    ));
    assert!(matches!(
        SlashCommand::parse("/cls"),
        Some((SlashCommand::Clear, ""))
    ));
}

#[test]
fn slash_command_parse_with_args() {
    let (cmd, args) = SlashCommand::parse("/model vendor-opus").unwrap();
    assert!(matches!(cmd, SlashCommand::Model));
    assert_eq!(args, "vendor-opus");

    let (cmd, args) = SlashCommand::parse("/name my session").unwrap();
    assert!(matches!(cmd, SlashCommand::Name));
    assert_eq!(args, "my session");
}

#[test]
fn slash_command_parse_case_insensitive() {
    assert!(SlashCommand::parse("/HELP").is_some());
    assert!(SlashCommand::parse("/Model").is_some());
    assert!(SlashCommand::parse("/EXIT").is_some());
}

#[test]
fn slash_command_parse_unknown() {
    assert!(SlashCommand::parse("/deploy").is_none());
    assert!(SlashCommand::parse("/unknown").is_none());
}

#[test]
fn slash_command_parse_no_slash() {
    assert!(SlashCommand::parse("help").is_none());
    assert!(SlashCommand::parse("model gpt-4").is_none());
}

#[test]
fn slash_command_parse_aliases() {
    assert!(matches!(
        SlashCommand::parse("/m"),
        Some((SlashCommand::Model, ""))
    ));
    assert!(matches!(
        SlashCommand::parse("/t"),
        Some((SlashCommand::Thinking, ""))
    ));
    assert!(matches!(
        SlashCommand::parse("/think"),
        Some((SlashCommand::Thinking, ""))
    ));
    assert!(matches!(
        SlashCommand::parse("/r"),
        Some((SlashCommand::Resume, ""))
    ));
    assert!(matches!(
        SlashCommand::parse("/cp"),
        Some((SlashCommand::Copy, ""))
    ));
    assert!(matches!(
        SlashCommand::parse("/info"),
        Some((SlashCommand::Session, ""))
    ));
}

#[test]
fn slash_command_all_variants_parse() {
    // Verify all main slash commands parse correctly
    let cases = vec![
        ("/login", SlashCommand::Login),
        ("/logout", SlashCommand::Logout),
        ("/settings", SlashCommand::Settings),
        ("/history", SlashCommand::History),
        ("/export", SlashCommand::Export),
        ("/session", SlashCommand::Session),
        ("/theme", SlashCommand::Theme),
        ("/resume", SlashCommand::Resume),
        ("/new", SlashCommand::New),
        ("/copy", SlashCommand::Copy),
        ("/name", SlashCommand::Name),
        ("/hotkeys", SlashCommand::Hotkeys),
        ("/changelog", SlashCommand::Changelog),
        ("/tree", SlashCommand::Tree),
        ("/fork", SlashCommand::Fork),
        ("/compact", SlashCommand::Compact),
        ("/reload", SlashCommand::Reload),
        ("/share", SlashCommand::Share),
    ];
    for (input, expected) in cases {
        let result = SlashCommand::parse(input);
        assert!(
            result.is_some(),
            "Expected {input} to parse as a SlashCommand"
        );
        let (cmd, _) = result.unwrap();
        assert_eq!(
            std::mem::discriminant(&cmd),
            std::mem::discriminant(&expected),
            "Mismatch for input {input}"
        );
    }
}

#[test]
fn slash_command_empty_and_whitespace() {
    assert!(SlashCommand::parse("").is_none());
    assert!(SlashCommand::parse("  ").is_none());
    assert!(SlashCommand::parse("/").is_none());
}

#[test]
fn arguments_lose_their_outer_white_space_only() {
    assert_eq!(
        SlashCommand::parse(" /NAME \t Two  Words\u{3000}"),
        Some((SlashCommand::Name, "Two  Words"))
    );
    assert_eq!(SlashCommand::from_name("/share"), Some(SlashCommand::Share));
    assert_eq!(SlashCommand::from_name("/SHARE"), None);
}
