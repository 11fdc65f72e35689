use pi_interactive::scoped_models::{parse_scoped_model_patterns, strip_thinking_level_suffix};

#[test]
fn strip_thinking_suffix_present() {
    assert_eq!(
        strip_thinking_level_suffix("vendor-opus:high"),
        "vendor-opus"
    );
    assert_eq!(strip_thinking_level_suffix("model:off"), "model");
    assert_eq!(strip_thinking_level_suffix("m:xhigh"), "m");
}

#[test]
fn strip_thinking_suffix_absent() {
    assert_eq!(strip_thinking_level_suffix("vendor-opus"), "vendor-opus");
}

#[test]
fn strip_thinking_suffix_unknown_level() {
    assert_eq!(strip_thinking_level_suffix("vendor:turbo"), "vendor:turbo");
}

#[test]
fn only_the_last_suffix_is_stripped() {
    for level in ["off", "minimal", "low", "medium", "high", "xhigh"] {
        assert_eq!(strip_thinking_level_suffix(&format!("a:b:{level}")), "a:b");
    }
    assert_eq!(strip_thinking_level_suffix("m:high:x"), "m:high:x");
    assert_eq!(strip_thinking_level_suffix("m:"), "m:");
    assert_eq!(strip_thinking_level_suffix(":low"), "");
    assert_eq!(strip_thinking_level_suffix(""), "");
}

#[test]
fn parse_model_patterns_comma_separated() {
    assert_eq!(
        parse_scoped_model_patterns("gpt-4*,vendor*"),
        vec!["gpt-4*", "vendor*"]
    );
}

#[test]
fn parse_model_patterns_space_separated() {
    assert_eq!(
        parse_scoped_model_patterns("gpt-4o vendor-opus"),
        vec!["gpt-4o", "vendor-opus"]
    );
}

#[test]
fn parse_model_patterns_mixed() {
    assert_eq!(parse_scoped_model_patterns("a, b c"), vec!["a", "b", "c"]);
}

#[test]
fn parse_model_patterns_empty() {
    assert!(parse_scoped_model_patterns("").is_empty());
    assert!(parse_scoped_model_patterns("  ").is_empty());
}
