use pi_interactive::credentials::{
    canonical_provider, normalize_api_key_input, normalize_auth_provider_input,
};

#[test]
fn normalize_api_key_input_trims_outer_whitespace() {
    let parsed = normalize_api_key_input("  sk-test-123  ").expect("should parse");
    assert_eq!(parsed, "sk-test-123");
}

#[test]
fn normalize_api_key_input_rejects_empty() {
    let err = normalize_api_key_input("   ").expect_err("should fail");
    assert!(err.contains("cannot be empty"));
}

#[test]
fn normalize_api_key_input_rejects_internal_whitespace() {
    let err = normalize_api_key_input("sk test").expect_err("should fail");
    assert!(err.contains("must not contain whitespace"));
}

#[test]
fn normalize_auth_provider_input_maps_gemini_alias() {
    assert_eq!(normalize_auth_provider_input("gemini"), "google");
    assert_eq!(normalize_auth_provider_input(" GOOGLE "), "google");
}

#[test]
fn other_providers_keep_their_names() {
    assert_eq!(normalize_auth_provider_input(" Anthropic\n"), "anthropic");
    assert_eq!(canonical_provider("gemini".to_string()), "google");
    assert_eq!(canonical_provider("Gemini".to_string()), "Gemini");
}
