//! Answers of the user, and the risk at run time.
use pi_interactive::permissions::{
    apply_runtime_risk, prompt_answered, resolve_prompt, FinalDecision, PermissionCache,
    PromptStep, RiskAction,
};
use pi_interactive::policy::{PolicyCheck, PolicyDecision};

fn decided(decision: PolicyDecision, reason: &'static str) -> PromptStep {
    PromptStep::Decided(PolicyCheck { decision, reason })
}

#[test]
fn answer_is_cached_for_its_extension_and_capability_only() {
    let mut cache = PermissionCache::new();
    assert_eq!(resolve_prompt(&cache, Some("a"), "ui", true), PromptStep::Ask);
    let check = prompt_answered(&mut cache, Some("a".to_string()), "ui".to_string(), true);
    assert_eq!(check.decision, PolicyDecision::Allow);
    assert_eq!(check.reason, "prompt_user_allow");
    let check = prompt_answered(&mut cache, Some("b".to_string()), "ui".to_string(), false);
    assert_eq!(check.decision, PolicyDecision::Deny);
    assert_eq!(check.reason, "prompt_user_deny");
    assert_eq!(
        resolve_prompt(&cache, Some("a"), "ui", true),
        decided(PolicyDecision::Allow, "prompt_cache_allow")
    );
    assert_eq!(
        resolve_prompt(&cache, Some("b"), "ui", true),
        decided(PolicyDecision::Deny, "prompt_cache_deny")
    );
    assert_eq!(resolve_prompt(&cache, Some("a"), "log", true), PromptStep::Ask);
    assert_eq!(resolve_prompt(&cache, Some("c"), "ui", true), PromptStep::Ask);
}

#[test]
fn unreachable_user_is_a_deny_but_for_earlier_answers() {
    let mut cache = PermissionCache::new();
    assert_eq!(
        resolve_prompt(&cache, Some("a"), "ui", false),
        decided(PolicyDecision::Deny, "shutdown")
    );
    cache.record("a".to_string(), "ui".to_string(), true);
    assert_eq!(
        resolve_prompt(&cache, Some("a"), "ui", false),
        decided(PolicyDecision::Allow, "prompt_cache_allow")
    );
}

#[test]
fn later_answer_replaces_an_earlier_one() {
    let mut cache = PermissionCache::new();
    cache.record("a".to_string(), "ui".to_string(), true);
    cache.record("a".to_string(), "log".to_string(), true);
    cache.record("a".to_string(), "ui".to_string(), false);
    assert_eq!(cache.get("a", "ui"), Some(false));
    assert_eq!(cache.get("a", "log"), Some(true));
}

#[test]
fn revocation_forgets_one_extension_and_reset_forgets_all() {
    let mut cache = PermissionCache::new();
    cache.record("a".to_string(), "ui".to_string(), true);
    cache.record("b".to_string(), "ui".to_string(), true);
    cache.record("a".to_string(), "log".to_string(), false);
    cache.revoke_extension("a");
    assert_eq!(cache.get("a", "ui"), None);
    assert_eq!(cache.get("a", "log"), None);
    assert_eq!(cache.get("b", "ui"), Some(true));
    cache.revoke_extension("nonexistent-abc-xyz");
    cache.revoke_extension("");
    assert_eq!(cache.get("b", "ui"), Some(true));
    cache.reset_all();
    assert_eq!(cache, PermissionCache::new());
    cache.reset_all();
    assert_eq!(cache.get("b", "ui"), None);
}

#[test]
fn risk_never_relaxes_a_deny() {
    for risk in [
        None,
        Some(RiskAction::Allow),
        Some(RiskAction::Harden),
        Some(RiskAction::Deny),
        Some(RiskAction::Terminate),
    ] {
        assert_eq!(apply_runtime_risk(false, risk, "read"), FinalDecision::Deny);
    }
}

#[test]
fn risk_tightens_an_allow() {
    assert_eq!(apply_runtime_risk(true, None, "exec"), FinalDecision::Allow);
    assert_eq!(
        apply_runtime_risk(true, Some(RiskAction::Allow), "exec"),
        FinalDecision::Allow
    );
    assert_eq!(
        apply_runtime_risk(true, Some(RiskAction::Harden), "exec"),
        FinalDecision::Deny
    );
    assert_eq!(
        apply_runtime_risk(true, Some(RiskAction::Harden), "env"),
        FinalDecision::Deny
    );
    assert_eq!(
        apply_runtime_risk(true, Some(RiskAction::Harden), "read"),
        FinalDecision::AllowHardened
    );
    assert_eq!(
        apply_runtime_risk(true, Some(RiskAction::Deny), "read"),
        FinalDecision::Deny
    );
    assert_eq!(
        apply_runtime_risk(true, Some(RiskAction::Terminate), "read"),
        FinalDecision::Quarantine
    );
}

#[test]
fn answer_for_an_unknown_extension_is_not_kept() {
    let mut cache = PermissionCache::new();
    let check = prompt_answered(&mut cache, None, "ui".to_string(), true);
    assert_eq!(check.reason, "prompt_user_allow");
    assert_eq!(cache, PermissionCache::new());
    assert_eq!(resolve_prompt(&cache, None, "ui", true), PromptStep::Ask);
    assert_eq!(
        resolve_prompt(&cache, None, "ui", false),
        decided(PolicyDecision::Deny, "shutdown")
    );
}
