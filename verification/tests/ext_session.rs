use pi_interactive::config::{parse_queue_mode_or_default, Config};
use pi_interactive::ext_session::{
    check_custom_type, get_branch, get_entries, get_messages, get_model, get_thinking_level,
    lock_failed, message_count, persistence_status, InteractiveExtensionSession,
};
use pi_interactive::host_actions::Error;
use pi_interactive::json::{Number, Value};
use pi_interactive::messages::QueueMode;
use pi_interactive::session::{AutosaveMetrics, EntryBody, Session, SessionMessage};
use pi_interactive::thinking::{ModelEntry, ThinkingLevel};

fn text(s: &str) -> Value {
    Value::String(s.to_string())
}

fn count(n: u64) -> Value {
    Value::Number(Number::PosInt(n))
}

fn extension_session(config: Config, save_enabled: bool) -> InteractiveExtensionSession {
    InteractiveExtensionSession {
        model: Value::Object(vec![("id".to_string(), text("noop-model"))]),
        is_streaming: false,
        is_compacting: false,
        config,
        save_enabled,
    }
}

fn custom(content: &str) -> SessionMessage {
    SessionMessage::Custom {
        custom_type: "note".to_string(),
        content: content.to_string(),
        display: true,
        details: Some(Value::Object(vec![("from".to_string(), text("test"))])),
        timestamp: Some(1),
    }
}

fn id(n: usize) -> String {
    format!("entry-{n}")
}

#[test]
fn interactive_extension_session_get_messages_includes_custom_messages() {
    let ext_session = extension_session(Config::default(), false);
    let mut session = Session::in_memory("session");
    ext_session.append_message(&mut session, id(0), custom("hello"));

    let messages = get_messages(Some(&session));
    assert!(
        messages.iter().any(|message| {
            matches!(
                message,
                SessionMessage::Custom {
                    custom_type,
                    content,
                    display,
                    details,
                    ..
                } if custom_type == "note"
                    && content == "hello"
                    && *display
                    && details.as_ref().and_then(|value| value.get_str("from")) == Some("test")
            )
        }),
        "expected custom message in interactive extension session messages, got {messages:?}"
    );
}

#[test]
fn set_thinking_level_clamps_and_dedupes_for_non_reasoning_models() {
    let entry = ModelEntry { reasoning: false, highest_level: ThinkingLevel::XHigh };
    let ext_session = extension_session(Config::default(), false);
    let mut session = Session::in_memory("session");
    ext_session.set_thinking_level(&mut session, id(0), "high".to_string(), Some(&entry));
    ext_session.set_thinking_level(&mut session, id(1), "high".to_string(), Some(&entry));

    assert_eq!(session.header.thinking_level.as_deref(), Some("off"));
    let thinking_changes = get_branch(Some(&session))
        .iter()
        .filter(|entry| matches!(entry.body, EntryBody::ThinkingLevelChange { .. }))
        .count();
    assert_eq!(thinking_changes, 1);
}

#[test]
fn set_model_avoids_duplicate_history_for_same_target() {
    let ext_session = extension_session(Config::default(), false);
    let mut session = Session::in_memory("session");
    for n in 0..2 {
        ext_session.set_model(
            &mut session,
            id(n),
            "anthropic".to_string(),
            "vendor-sonnet-4-5".to_string(),
        );
    }

    let model_changes = get_branch(Some(&session))
        .iter()
        .filter(|entry| matches!(entry.body, EntryBody::ModelChange { .. }))
        .count();
    assert_eq!(model_changes, 1);
}

#[test]
fn get_state_reports_configured_queue_modes() {
    let ext_session = extension_session(
        Config {
            steering_mode: Some("all".to_string()),
            follow_up_mode: Some("one-at-a-time".to_string()),
            ..Config::default()
        },
        false,
    );
    let session = Session::in_memory("session");

    let state = ext_session.get_state(Some(&session));
    assert_eq!(state.get("steeringMode"), Some(&text("all")));
    assert_eq!(state.get("followUpMode"), Some(&text("one-at-a-time")));
}

#[test]
fn parse_queue_mode_all() {
    assert!(matches!(parse_queue_mode_or_default(Some("all")), QueueMode::All));
}

#[test]
fn parse_queue_mode_default() {
    assert!(matches!(parse_queue_mode_or_default(None), QueueMode::OneAtATime));
    assert!(matches!(
        parse_queue_mode_or_default(Some("anything")),
        QueueMode::OneAtATime
    ));
}

#[test]
fn state_of_a_session() {
    let mut ext_session = extension_session(Config::default(), true);
    ext_session.is_streaming = true;
    let mut session = Session::in_memory("s-1");
    session.path = Some("/tmp/s-1.jsonl".to_string());
    session.durability_mode = "strict".to_string();
    session.autosave =
        AutosaveMetrics { pending_mutations: 3, max_pending_mutations: 3, flush_failed: 0 };
    ext_session.set_name(&mut session, "work".to_string());
    ext_session.append_message(&mut session, id(0), custom("a"));
    ext_session.append_message(&mut session, id(1), SessionMessage::Internal(Value::Null));
    ext_session
        .append_custom_entry(&mut session, id(2), "data".to_string(), None)
        .expect("append");

    let state = ext_session.get_state(Some(&session));
    let expected = vec![
        ("model", Value::Object(vec![("id".to_string(), text("noop-model"))])),
        ("thinkingLevel", text("off")),
        ("isStreaming", Value::Bool(true)),
        ("isCompacting", Value::Bool(false)),
        ("steeringMode", text("one-at-a-time")),
        ("followUpMode", text("one-at-a-time")),
        ("sessionFile", text("/tmp/s-1.jsonl")),
        ("sessionId", text("s-1")),
        ("sessionName", text("work")),
        ("autoCompactionEnabled", Value::Bool(true)),
        ("messageCount", count(2)),
        ("pendingMessageCount", count(3)),
        ("durabilityMode", text("strict")),
        ("autosavePendingMutations", count(3)),
        ("autosaveMaxPendingMutations", count(3)),
        ("autosaveFlushFailedCount", count(0)),
        ("autosaveBackpressure", Value::Bool(true)),
        ("persistenceStatus", text("backpressure")),
    ];
    for (name, value) in &expected {
        assert_eq!(state.get(name), Some(value), "{name}");
    }
    match state {
        Value::Object(members) => assert_eq!(members.len(), expected.len()),
        other => panic!("expected an object, got {other:?}"),
    }
}

#[test]
fn state_of_a_session_that_cannot_be_locked() {
    let state = extension_session(Config::default(), false).get_state(None);
    assert_eq!(state.get("sessionFile"), Some(&Value::Null));
    assert_eq!(state.get("sessionId"), Some(&text("")));
    assert_eq!(state.get("sessionName"), Some(&Value::Null));
    assert_eq!(state.get("messageCount"), Some(&count(0)));
    assert_eq!(state.get("thinkingLevel"), Some(&text("off")));
    assert_eq!(state.get("durabilityMode"), Some(&text("balanced")));
    assert_eq!(state.get("autosaveBackpressure"), Some(&Value::Bool(false)));
    assert_eq!(state.get("persistenceStatus"), Some(&text("unknown")));
}

#[test]
fn status_of_the_autosave() {
    let status = |pending_mutations, max_pending_mutations, flush_failed| {
        persistence_status(&AutosaveMetrics {
            pending_mutations,
            max_pending_mutations,
            flush_failed,
        })
    };
    assert_eq!(status(0, 0, 0), "healthy");
    assert_eq!(status(0, 5, 0), "healthy");
    assert_eq!(status(4, 0, 0), "draining");
    assert_eq!(status(4, 5, 0), "draining");
    assert_eq!(status(5, 5, 0), "backpressure");
    assert_eq!(status(9, 5, 1), "degraded");
    assert_eq!(status(0, 0, 1), "degraded");
}

#[test]
fn messages_of_the_current_branch_only() {
    let ext_session = extension_session(Config::default(), false);
    let mut session = Session::in_memory("session");
    for (n, content) in ["root", "left", "right"].iter().enumerate() {
        ext_session.append_message(&mut session, id(n), custom(content));
    }
    // The branch goes from the first entry straight to the third.
    session.branch = vec![0, 2];
    assert!(session.is_well_formed());
    let contents: Vec<&str> = get_messages(Some(&session))
        .iter()
        .map(|message| match message {
            SessionMessage::Custom { content, .. } => content.as_str(),
            _ => "",
        })
        .collect();
    assert_eq!(contents, vec!["root", "right"]);
    assert_eq!(message_count(&session), 2);
    let branch: Vec<&str> = get_branch(Some(&session)).iter().map(|e| e.id.as_str()).collect();
    assert_eq!(branch, vec!["entry-0", "entry-2"]);
    let all: Vec<&str> = get_entries(Some(&session)).iter().map(|e| e.id.as_str()).collect();
    assert_eq!(all, vec!["entry-0", "entry-1", "entry-2"]);
}

#[test]
fn internal_messages_are_counted_but_not_seen() {
    let ext_session = extension_session(Config::default(), false);
    let mut session = Session::in_memory("session");
    ext_session.append_message(&mut session, id(0), SessionMessage::User(text("u")));
    ext_session.append_message(&mut session, id(1), SessionMessage::Internal(text("i")));
    ext_session.append_message(&mut session, id(2), SessionMessage::BashExecution(text("b")));
    assert_eq!(
        get_messages(Some(&session)),
        vec![&SessionMessage::User(text("u")), &SessionMessage::BashExecution(text("b"))]
    );
    assert_eq!(message_count(&session), 3);
}

#[test]
fn branches_that_are_none() {
    let ext_session = extension_session(Config::default(), false);
    let mut session = Session::in_memory("session");
    ext_session.append_message(&mut session, id(0), custom("a"));
    ext_session.append_message(&mut session, id(1), custom("b"));
    session.branch = vec![1, 0];
    assert!(!session.is_well_formed());
    session.branch = vec![0, 0];
    assert!(!session.is_well_formed());
    session.branch = vec![0, 2];
    assert!(!session.is_well_formed());
    session.branch = vec![];
    assert!(session.is_well_formed());
}

#[test]
fn nothing_is_read_from_a_session_that_cannot_be_locked() {
    assert!(get_messages(None).is_empty());
    assert!(get_entries(None).is_empty());
    assert!(get_branch(None).is_empty());
    assert_eq!(get_model(None), (None, None));
    assert_eq!(get_thinking_level(None), None);
    assert_eq!(
        lock_failed("cancelled"),
        Error::Session("session lock failed: cancelled".to_string())
    );
}

#[test]
fn custom_entries_need_a_type() {
    let ext_session = extension_session(Config::default(), true);
    let mut session = Session::in_memory("session");
    let refused = Error::Validation("customType must not be empty".to_string());
    for custom_type in ["", "   ", "\n\t"] {
        assert_eq!(
            ext_session.append_custom_entry(&mut session, id(0), custom_type.to_string(), None),
            Err(Error::Validation("customType must not be empty".to_string()))
        );
    }
    assert_eq!(check_custom_type(" "), Err(refused));
    assert!(session.entries.is_empty());
    assert_eq!(
        ext_session.append_custom_entry(
            &mut session,
            id(0),
            " kept ".to_string(),
            Some(Value::Null)
        ),
        Ok(true)
    );
    assert_eq!(
        session.entries[0].body,
        EntryBody::Custom { custom_type: " kept ".to_string(), data: Some(Value::Null) }
    );
}

#[test]
fn another_model_is_recorded() {
    let ext_session = extension_session(Config::default(), true);
    let mut session = Session::in_memory("session");
    let mut set = |n: usize, provider: &str, model: &str| {
        ext_session.set_model(&mut session, id(n), provider.to_string(), model.to_string())
    };
    assert!(set(0, "openai", "o1"));
    assert!(set(1, "openai", "o3"));
    assert!(set(2, "azure", "o3"));
    assert!(set(3, "azure", "o3"));
    assert_eq!(session.entries.len(), 3);
    assert_eq!(
        get_model(Some(&session)),
        (Some("azure".to_string()), Some("o3".to_string()))
    );
}

#[test]
fn thinking_levels_that_models_take() {
    let ext_session = extension_session(Config::default(), true);
    let mut session = Session::in_memory("session");
    let model = ModelEntry { reasoning: true, highest_level: ThinkingLevel::High };
    let mut set = |n: usize, level: &str, model: Option<&ModelEntry>| {
        let save = ext_session.set_thinking_level(&mut session, id(n), level.to_string(), model);
        (save, get_thinking_level(Some(&session)).unwrap(), session.entries.len())
    };
    assert_eq!(set(0, "low", Some(&model)), (true, "low".to_string(), 1));
    assert_eq!(set(1, "xhigh", Some(&model)), (true, "high".to_string(), 2));
    assert_eq!(set(2, "high", Some(&model)), (false, "high".to_string(), 2));
    assert_eq!(set(3, "xhigh", None), (true, "xhigh".to_string(), 3));
    assert_eq!(set(4, "extreme", Some(&model)), (true, "extreme".to_string(), 4));
}

#[test]
fn names_of_thinking_levels() {
    for name in ["off", "minimal", "low", "medium", "high", "xhigh"] {
        assert_eq!(ThinkingLevel::from_name(name).map(|level| level.as_str()), Some(name));
    }
    assert_eq!(ThinkingLevel::from_name("turbo"), None);
}

#[test]
fn labels_need_a_target() {
    let ext_session = extension_session(Config::default(), false);
    let mut session = Session::in_memory("session");
    assert_eq!(
        ext_session.set_label(&mut session, id(9), "entry-0".to_string(), None),
        Err(Error::Validation("target entry 'entry-0' not found in session".to_string()))
    );
    ext_session.append_message(&mut session, id(0), custom("a"));
    assert_eq!(
        ext_session.set_label(
            &mut session,
            id(1),
            "entry-0".to_string(),
            Some("here".to_string())
        ),
        Ok(false)
    );
    assert_eq!(session.entries.len(), 2);
}

#[test]
fn changes_are_saved_where_that_is_enabled() {
    for save_enabled in [false, true] {
        let ext_session = extension_session(Config::default(), save_enabled);
        let mut session = Session::in_memory("session");
        assert_eq!(ext_session.set_name(&mut session, "n".to_string()), save_enabled);
        assert_eq!(session.name.as_deref(), Some("n"));
        assert_eq!(ext_session.append_message(&mut session, id(0), custom("a")), save_enabled);
    }
}

#[test]
fn compaction_is_enabled_unless_set_otherwise() {
    assert!(Config::default().compaction_enabled());
    let config = Config { compaction_enabled: Some(false), ..Config::default() };
    assert!(!config.compaction_enabled());
}

#[test]
fn config_default_queue_modes() {
    let config = Config::default();
    assert_eq!(config.steering_queue_mode(), QueueMode::OneAtATime);
    assert_eq!(config.follow_up_queue_mode(), QueueMode::OneAtATime);
}

#[test]
fn compaction_can_be_explicitly_disabled() {
    let config = Config { compaction_enabled: Some(false), ..Config::default() };
    assert!(!config.compaction_enabled());
}
