//! The capabilities that calls into the host need, and what becomes of the calls.
use pi_interactive::host_calls::{
    host_call_step, required_capability_for_host_call, validate_host_call, HostCallErrorCode,
    HostCallPayload, HostCallStep,
};
use pi_interactive::json::{Number, Value};
use pi_interactive::permissions::PermissionCache;
use pi_interactive::policy::{ExtensionOverride, ExtensionPolicy, ExtensionPolicyMode};

fn text(s: &str) -> Value {
    Value::String(s.to_string())
}

fn object(members: Vec<(&str, Value)>) -> Value {
    Value::Object(members.into_iter().map(|(k, v)| (k.to_string(), v)).collect())
}

fn make_call(call_id: &str, method: &str, capability: &str, params: Value) -> HostCallPayload {
    HostCallPayload {
        call_id: call_id.to_string(),
        capability: capability.to_string(),
        method: method.to_string(),
        params,
        timeout_ms: None,
        cancel_token: None,
        context: None,
    }
}

fn tool_call(tool_name: &str) -> HostCallPayload {
    HostCallPayload {
        call_id: format!("test-tool-{tool_name}"),
        capability: "tool".to_string(),
        method: "tool".to_string(),
        params: object(vec![("name", text(tool_name)), ("input", object(vec![]))]),
        timeout_ms: None,
        cancel_token: None,
        context: None,
    }
}

#[test]
fn tool_read_maps_to_read() {
    assert_eq!(
        required_capability_for_host_call(&tool_call("read")),
        Some("read")
    );
}

#[test]
fn tool_grep_maps_to_read() {
    assert_eq!(
        required_capability_for_host_call(&tool_call("grep")),
        Some("read")
    );
}

#[test]
fn tool_find_maps_to_read() {
    assert_eq!(
        required_capability_for_host_call(&tool_call("find")),
        Some("read")
    );
}

#[test]
fn tool_ls_maps_to_read() {
    assert_eq!(
        required_capability_for_host_call(&tool_call("ls")),
        Some("read")
    );
}

#[test]
fn tool_write_maps_to_write() {
    assert_eq!(
        required_capability_for_host_call(&tool_call("write")),
        Some("write")
    );
}

#[test]
fn tool_edit_maps_to_write() {
    assert_eq!(
        required_capability_for_host_call(&tool_call("edit")),
        Some("write")
    );
}

#[test]
fn tool_bash_maps_to_exec() {
    assert_eq!(
        required_capability_for_host_call(&tool_call("bash")),
        Some("exec")
    );
}

#[test]
fn tool_unknown_maps_to_tool() {
    assert_eq!(
        required_capability_for_host_call(&tool_call("custom-tool")),
        Some("tool")
    );
}

#[test]
fn tool_name_case_insensitive() {
    assert_eq!(
        required_capability_for_host_call(&tool_call("READ")),
        Some("read")
    );
    assert_eq!(
        required_capability_for_host_call(&tool_call("BASH")),
        Some("exec")
    );
    assert_eq!(
        required_capability_for_host_call(&tool_call("Edit")),
        Some("write")
    );
}

#[test]
fn tool_name_trimmed() {
    let mut call = tool_call("read");
    call.params = object(vec![("name", text("  read  ")), ("input", object(vec![]))]);
    assert_eq!(
        required_capability_for_host_call(&call),
        Some("read")
    );
}

#[test]
fn tool_empty_name_returns_none() {
    let mut call = tool_call("");
    call.params = object(vec![("name", text("")), ("input", object(vec![]))]);
    assert!(required_capability_for_host_call(&call).is_none());
}

#[test]
fn tool_missing_name_returns_none() {
    let call = HostCallPayload {
        call_id: "test-no-name".to_string(),
        capability: "tool".to_string(),
        method: "tool".to_string(),
        params: object(vec![("input", object(vec![]))]),
        timeout_ms: None,
        cancel_token: None,
        context: None,
    };
    assert!(required_capability_for_host_call(&call).is_none());
}

#[test]
fn tool_non_string_name_returns_none() {
    let mut call = tool_call("read");
    call.params = object(vec![("name", object(vec![("nested", text("read"))])), ("input", object(vec![]))]);
    assert!(required_capability_for_host_call(&call).is_none());

    call.params = object(vec![("name", Value::Number(Number::PosInt(7))), ("input", object(vec![]))]);
    assert!(required_capability_for_host_call(&call).is_none());
}

fn fs_call(op: &str) -> HostCallPayload {
    HostCallPayload {
        call_id: format!("test-fs-{op}"),
        capability: "read".to_string(),
        method: "fs".to_string(),
        params: object(vec![("op", text(op)), ("path", text("/tmp/test"))]),
        timeout_ms: None,
        cancel_token: None,
        context: None,
    }
}

#[test]
fn fs_read_maps_to_read() {
    assert_eq!(
        required_capability_for_host_call(&fs_call("read")),
        Some("read")
    );
}

#[test]
fn fs_list_maps_to_read() {
    assert_eq!(
        required_capability_for_host_call(&fs_call("list")),
        Some("read")
    );
}

#[test]
fn fs_readdir_maps_to_read() {
    assert_eq!(
        required_capability_for_host_call(&fs_call("readdir")),
        Some("read")
    );
}

#[test]
fn fs_stat_maps_to_read() {
    assert_eq!(
        required_capability_for_host_call(&fs_call("stat")),
        Some("read")
    );
}

#[test]
fn fs_write_maps_to_write() {
    assert_eq!(
        required_capability_for_host_call(&fs_call("write")),
        Some("write")
    );
}

#[test]
fn fs_mkdir_maps_to_write() {
    assert_eq!(
        required_capability_for_host_call(&fs_call("mkdir")),
        Some("write")
    );
}

#[test]
fn fs_delete_maps_to_write() {
    assert_eq!(
        required_capability_for_host_call(&fs_call("delete")),
        Some("write")
    );
}

#[test]
fn fs_remove_maps_to_write() {
    assert_eq!(
        required_capability_for_host_call(&fs_call("remove")),
        Some("write")
    );
}

#[test]
fn fs_rm_maps_to_write() {
    assert_eq!(
        required_capability_for_host_call(&fs_call("rm")),
        Some("write")
    );
}

#[test]
fn fs_op_case_insensitive() {
    assert_eq!(
        required_capability_for_host_call(&fs_call("READ")),
        Some("read")
    );
    assert_eq!(
        required_capability_for_host_call(&fs_call("DELETE")),
        Some("write")
    );
}

#[test]
fn fs_unknown_op_returns_none() {
    assert!(required_capability_for_host_call(&fs_call("truncate")).is_none());
}

#[test]
fn fs_empty_op_returns_none() {
    assert!(required_capability_for_host_call(&fs_call("")).is_none());
}

#[test]
fn fs_missing_op_returns_none() {
    let call = HostCallPayload {
        call_id: "test-fs-no-op".to_string(),
        capability: "read".to_string(),
        method: "fs".to_string(),
        params: object(vec![("path", text("/tmp/test"))]),
        timeout_ms: None,
        cancel_token: None,
        context: None,
    };
    assert!(required_capability_for_host_call(&call).is_none());
}

#[test]
fn fs_non_string_op_returns_none() {
    let mut call = fs_call("read");
    call.params = object(vec![("op", object(vec![("kind", text("read"))])), ("path", text("/tmp/test"))]);
    assert!(required_capability_for_host_call(&call).is_none());

    call.params = object(vec![("op", Value::Bool(false)), ("path", text("/tmp/test"))]);
    assert!(required_capability_for_host_call(&call).is_none());
}

fn method_call(method: &str) -> HostCallPayload {
    HostCallPayload {
        call_id: format!("test-method-{method}"),
        capability: method.to_string(),
        method: method.to_string(),
        params: object(vec![]),
        timeout_ms: None,
        cancel_token: None,
        context: None,
    }
}

#[test]
fn all_direct_methods_map_correctly() {
    let expected = [
        ("exec", "exec"),
        ("env", "env"),
        ("http", "http"),
        ("session", "session"),
        ("ui", "ui"),
        ("events", "events"),
        ("log", "log"),
    ];
    for (method, expected_cap) in expected {
        assert_eq!(
            required_capability_for_host_call(&method_call(method)),
            Some(expected_cap),
            "method {method} should map to {expected_cap}"
        );
    }
}

#[test]
fn unknown_method_returns_none() {
    assert!(required_capability_for_host_call(&method_call("compute")).is_none());
    assert!(required_capability_for_host_call(&method_call("gpu")).is_none());
}

#[test]
fn method_case_insensitive() {
    assert_eq!(
        required_capability_for_host_call(&method_call("EXEC")),
        Some("exec")
    );
    assert_eq!(
        required_capability_for_host_call(&method_call("Http")),
        Some("http")
    );
}

#[test]
fn method_trimmed() {
    let call = HostCallPayload {
        call_id: "test-trim".to_string(),
        capability: "exec".to_string(),
        method: "  exec  ".to_string(),
        params: object(vec![]),
        timeout_ms: None,
        cancel_token: None,
        context: None,
    };
    assert_eq!(
        required_capability_for_host_call(&call),
        Some("exec")
    );
}

#[test]
fn empty_method_returns_none() {
    let call = HostCallPayload {
        call_id: "test-empty".to_string(),
        capability: String::new(),
        method: String::new(),
        params: object(vec![]),
        timeout_ms: None,
        cancel_token: None,
        context: None,
    };
    assert!(required_capability_for_host_call(&call).is_none());
}

fn alias_call(method: &str, params: Value) -> HostCallPayload {
    make_call("typed-alias", method, method, params)
}

#[test]
fn events_aliases_across_op_method_name_keys_map_to_events() {
    assert_eq!(
        required_capability_for_host_call(&alias_call(
            "events",
            object(vec![("op", text(" get_active_tools "))])
        ))
        ,
        Some("events")
    );
    assert_eq!(
        required_capability_for_host_call(&alias_call(
            "events",
            object(vec![("method", text("set-model"))])
        ))
        ,
        Some("events")
    );
    assert_eq!(
        required_capability_for_host_call(&alias_call(
            "events",
            object(vec![("name", text("register command"))])
        ))
        ,
        Some("events")
    );
    assert_eq!(
        required_capability_for_host_call(&alias_call(
            " EVENTS ",
            object(vec![("op", text("append.entry"))])
        ))
        ,
        Some("events")
    );
}

#[test]
fn session_aliases_across_op_method_name_keys_map_to_session() {
    assert_eq!(
        required_capability_for_host_call(&alias_call("session", object(vec![("op", text("get_model"))])))
            ,
        Some("session")
    );
    assert_eq!(
        required_capability_for_host_call(&alias_call(
            "session",
            object(vec![("method", text("set-thinking_level"))])
        ))
        ,
        Some("session")
    );
    assert_eq!(
        required_capability_for_host_call(&alias_call(
            "session",
            object(vec![("name", text("set label"))])
        ))
        ,
        Some("session")
    );
    assert_eq!(
        required_capability_for_host_call(&alias_call(
            " SESSION ",
            object(vec![("op", text(" get-file "))])
        ))
        ,
        Some("session")
    );
}

#[test]
fn typed_alias_matching_is_ascii_folded_and_punctuation_insensitive() {
    assert_eq!(
        required_capability_for_host_call(&alias_call(
            "events",
            object(vec![("op", text(" LiSt.FlAgS "))])
        ))
        ,
        Some("events")
    );
    assert_eq!(
        required_capability_for_host_call(&alias_call(
            "session",
            object(vec![("op", text(" SET_thinking-level "))])
        ))
        ,
        Some("session")
    );
}

#[test]
fn non_string_alias_values_fall_back_to_declared_method_capability() {
    assert_eq!(
        required_capability_for_host_call(&alias_call(
            "events",
            object(vec![("op", object(vec![("name", text("get_active_tools"))]))])
        ))
        ,
        Some("events")
    );
    assert_eq!(
        required_capability_for_host_call(&alias_call(
            "events",
            object(vec![("op", Value::Number(Number::PosInt(1))), ("method", text("set-model"))])
        ))
        ,
        Some("events")
    );
    assert_eq!(
        required_capability_for_host_call(&alias_call(
            "session",
            object(vec![("name", Value::Array(vec![text("set label")]))])
        ))
        ,
        Some("session")
    );
    assert_eq!(
        required_capability_for_host_call(&alias_call(
            "session",
            object(vec![("op", Value::Bool(true)), ("name", text("get_model"))])
        ))
        ,
        Some("session")
    );
    assert!(
        required_capability_for_host_call(&alias_call("mystery", object(vec![("op", object(vec![]))])))
            .is_none()
    );
}

#[test]
fn unsupported_event_session_ops_do_not_escalate_and_unknown_method_fails_closed() {
    assert_eq!(
        required_capability_for_host_call(&alias_call(
            "events",
            object(vec![("op", text("launch_shell"))])
        ))
        ,
        Some("events")
    );
    assert_eq!(
        required_capability_for_host_call(&alias_call("session", object(vec![("op", text("exec"))])))
            ,
        Some("session")
    );
    assert!(
        required_capability_for_host_call(&alias_call("mystery", object(vec![("op", text("get_model"))])))
            .is_none()
    );
}

fn assert_invalid(call: &HostCallPayload) {
    assert_eq!(validate_host_call(call), Err(HostCallErrorCode::InvalidRequest));
    let step = host_call_step(
        &ExtensionPolicy::default(),
        call,
        Some("ext"),
        &PermissionCache::new(),
        true,
    );
    assert_eq!(
        step,
        HostCallStep::Refuse(HostCallErrorCode::InvalidRequest, "invalid_request")
    );
}

#[test]
fn empty_call_id_returns_invalid_request() {
    assert_invalid(&make_call(
        "",
        "tool",
        "read",
        object(vec![("name", text("read")), ("input", object(vec![]))]),
    ));
}

#[test]
fn non_object_params_returns_invalid_request() {
    assert_invalid(&make_call("bad-params", "tool", "read", text("not an object")));
}

#[test]
fn empty_capability_returns_invalid_request() {
    assert_invalid(&make_call("empty-cap", "tool", "", object(vec![])));
}

#[test]
fn empty_method_returns_invalid_request() {
    assert_invalid(&make_call("empty-method", "", "read", object(vec![])));
}

#[test]
fn whitespace_only_call_id_returns_invalid_request() {
    assert_invalid(&make_call("   ", "tool", "read", object(vec![])));
}

#[test]
fn mismatched_or_unknown_call_is_invalid() {
    assert_invalid(&make_call(
        "forged",
        "tool",
        "read",
        object(vec![("name", text("bash"))]),
    ));
    assert_invalid(&make_call("unknown", "compute", "compute", object(vec![])));
    assert_invalid(&make_call("blank-method", " \t", "exec", object(vec![])));
    assert_invalid(&make_call("blank-cap", "exec", "  ", object(vec![])));
}

#[test]
fn valid_call_gives_the_capability_that_it_needs() {
    let call = make_call("c", "tool", "exec", object(vec![("name", text("bash"))]));
    assert_eq!(validate_host_call(&call), Ok("exec"));
    let call = make_call("c", " HTTP ", "http", object(vec![]));
    assert_eq!(validate_host_call(&call), Ok("http"));
}

#[test]
fn denied_capability_is_refused_with_its_reason() {
    let call = make_call(
        "scoped-exec",
        "exec",
        "exec",
        object(vec![("cmd", text("ls"))]),
    );
    let step = host_call_step(
        &ExtensionPolicy::default(),
        &call,
        Some("my-extension"),
        &PermissionCache::new(),
        true,
    );
    assert_eq!(step, HostCallStep::Refuse(HostCallErrorCode::Denied, "deny_caps"));
}

#[test]
fn dispatch_allowed_cap_passes_to_handler() {
    let call = make_call(
        "scoped-read",
        "tool",
        "read",
        object(vec![
            ("name", text("read")),
            ("input", object(vec![("path", text("/nonexistent"))])),
        ]),
    );
    let step = host_call_step(
        &ExtensionPolicy::default(),
        &call,
        Some("good-ext"),
        &PermissionCache::new(),
        false,
    );
    assert_eq!(step, HostCallStep::Assess);
}

fn read_only_policy() -> ExtensionPolicy {
    ExtensionPolicy {
        mode: ExtensionPolicyMode::Prompt,
        deny_caps: Vec::new(),
        default_caps: vec!["read".to_string()],
        ..Default::default()
    }
}

#[test]
fn dispatch_prompt_without_manager_falls_to_deny() {
    let call = make_call(
        "prompt-deny",
        "exec",
        "exec",
        object(vec![("cmd", text("ls"))]),
    );
    let step = host_call_step(
        &read_only_policy(),
        &call,
        Some("test-ext"),
        &PermissionCache::new(),
        false,
    );
    assert!(matches!(step, HostCallStep::Refuse(HostCallErrorCode::Denied, _)));
}

#[test]
fn dispatch_prompt_with_manager_but_no_ui_sender() {
    let mut cache = PermissionCache::new();
    cache.reset_all();
    let call = make_call(
        "no-ui-sender",
        "ui",
        "ui",
        object(vec![("op", text("notify")), ("message", text("test"))]),
    );
    let step = host_call_step(
        &read_only_policy(),
        &call,
        Some("test-ext-no-ui-unique-12345"),
        &cache,
        false,
    );
    assert!(matches!(step, HostCallStep::Refuse(HostCallErrorCode::Denied, _)));
}

#[test]
fn dispatch_allowed_cap_in_default_caps_passes_regardless_of_extension() {
    for ext_id in ["ext-a", "ext-b", "unknown-ext"] {
        let call = make_call(
            &format!("{ext_id}-read"),
            "tool",
            "read",
            object(vec![
                ("name", text("read")),
                ("input", object(vec![("path", text("/nonexistent"))])),
            ]),
        );
        let step = host_call_step(
            &ExtensionPolicy::default(),
            &call,
            Some(ext_id),
            &PermissionCache::new(),
            true,
        );
        assert_eq!(step, HostCallStep::Assess, "read should pass for {ext_id}");
    }
}

#[test]
fn earlier_answer_decides_a_prompt() {
    let call = make_call("ask", "ui", "ui", object(vec![]));
    let policy = read_only_policy();
    let mut cache = PermissionCache::new();
    assert_eq!(host_call_step(&policy, &call, Some("ext"), &cache, true), HostCallStep::Ask);
    cache.record("ext".to_string(), "ui".to_string(), true);
    assert_eq!(host_call_step(&policy, &call, Some("ext"), &cache, false), HostCallStep::Assess);
    cache.record("ext".to_string(), "ui".to_string(), false);
    assert_eq!(
        host_call_step(&policy, &call, Some("ext"), &cache, true),
        HostCallStep::Refuse(HostCallErrorCode::Denied, "prompt_cache_deny")
    );
    assert_eq!(host_call_step(&policy, &call, Some("other"), &cache, true), HostCallStep::Ask);
}

#[test]
fn unknown_extension_is_decided_without_rules_or_earlier_answers() {
    let mut policy = read_only_policy();
    policy.set_override(
        "ext".to_string(),
        ExtensionOverride { deny: vec!["read".to_string()], ..Default::default() },
    );
    let read = make_call("r", "fs", "read", object(vec![("op", text("stat"))]));
    let ask = make_call("a", "ui", "ui", object(vec![]));
    let mut cache = PermissionCache::new();
    cache.record("ext".to_string(), "ui".to_string(), true);
    assert_eq!(host_call_step(&policy, &read, None, &cache, true), HostCallStep::Assess);
    assert_eq!(
        host_call_step(&policy, &read, Some("ext"), &cache, true),
        HostCallStep::Refuse(HostCallErrorCode::Denied, "extension_deny")
    );
    assert_eq!(host_call_step(&policy, &ask, None, &cache, true), HostCallStep::Ask);
    assert_eq!(
        host_call_step(&policy, &ask, None, &cache, false),
        HostCallStep::Refuse(HostCallErrorCode::Denied, "shutdown")
    );
}
