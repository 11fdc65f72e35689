//! What extensions may do: policies over capabilities, and how one is chosen.
//!
//! A capability is decided by layers. The rules of the one extension that deny come first, then
//! the capabilities that are denied to all, then the rules of the extension that allow, then the
//! capabilities that are allowed to all, and last the mode.
use vstd::prelude::*;

use crate::members::{
    first_members, lemma_first_members, lemma_member_of_its_key, lemma_no_member,
    lemma_push_member, lemma_replace_member,
};
use crate::text::{
    ascii_lower, contains_text, copy_text, eq_ignore_ascii_case, same_text, str_chars, texts_view,
};

verus! {

broadcast use vstd::string::group_string_axioms;

/// What happens to a capability that no rule speaks of.
#[derive(Clone, Copy, Debug, PartialEq, Eq, Structural)]
pub enum ExtensionPolicyMode {
    /// It is denied.
    Strict,
    /// The user is asked.
    Prompt,
    /// It is allowed.
    Permissive,
}

/// The decision on a capability.
#[derive(Clone, Copy, Debug, PartialEq, Eq, Structural)]
pub enum PolicyDecision {
    Allow,
    Prompt,
    Deny,
}

/// A decision and the name of the rule that it comes from.
#[derive(Clone, Copy, Debug, PartialEq, Eq)]
pub struct PolicyCheck {
    pub decision: PolicyDecision,
    pub reason: &'static str,
}

impl View for PolicyCheck {
    type V = (PolicyDecision, Seq<char>);

    open spec fn view(&self) -> (PolicyDecision, Seq<char>) {
        (self.decision, self.reason@)
    }
}

/// The rules of one extension.
#[derive(Debug, PartialEq)]
pub struct ExtensionOverride {
    /// The mode for this extension, where it differs.
    pub mode: Option<ExtensionPolicyMode>,
    pub allow: Vec<String>,
    pub deny: Vec<String>,
}

impl Default for ExtensionOverride {
    fn default() -> (r: ExtensionOverride)
        ensures
            r@ == (Override { mode: None, allow: Seq::empty(), deny: Seq::empty() }),
    {
        let r = ExtensionOverride { mode: None, allow: Vec::new(), deny: Vec::new() };
        assert(texts_view(r.allow@) =~= Seq::empty());
        assert(texts_view(r.deny@) =~= Seq::empty());
        r
    }
}

/// The model of the rules of one extension.
pub struct Override {
    pub mode: Option<ExtensionPolicyMode>,
    pub allow: Seq<Seq<char>>,
    pub deny: Seq<Seq<char>>,
}

impl View for ExtensionOverride {
    type V = Override;

    open spec fn view(&self) -> Override {
        Override { mode: self.mode, allow: texts_view(self.allow@), deny: texts_view(self.deny@) }
    }
}

/// A policy.
#[derive(Debug, PartialEq)]
pub struct ExtensionPolicy {
    pub mode: ExtensionPolicyMode,
    /// What every extension may do.
    pub default_caps: Vec<String>,
    /// What no extension may do.
    pub deny_caps: Vec<String>,
    /// The rules of single extensions, by their id.
    pub per_extension: Vec<(String, ExtensionOverride)>,
}

/// The model of a policy.
pub struct Policy {
    pub mode: ExtensionPolicyMode,
    pub default_caps: Seq<Seq<char>>,
    pub deny_caps: Seq<Seq<char>>,
    pub per_extension: Map<Seq<char>, Override>,
}

/// The models of the rules of single extensions, in their order.
pub open spec fn overrides_view(overrides: Seq<(String, ExtensionOverride)>) -> Seq<
    (Seq<char>, Override),
> {
    overrides.map_values(|member: (String, ExtensionOverride)| (member.0@, member.1@))
}

impl View for ExtensionPolicy {
    type V = Policy;

    open spec fn view(&self) -> Policy {
        Policy {
            mode: self.mode,
            default_caps: texts_view(self.default_caps@),
            deny_caps: texts_view(self.deny_caps@),
            per_extension: first_members(overrides_view(self.per_extension@)),
        }
    }
}

// ---------------------------------------------------------------------------------------------
// Evaluation
// ---------------------------------------------------------------------------------------------

impl Policy {
    /// The rules of an extension, where it is known and has some.
    pub open spec fn rules(self, extension: Option<Seq<char>>) -> Option<Override> {
        match extension {
            Some(id) => if self.per_extension.dom().contains(id) {
                Some(self.per_extension[id])
            } else {
                None
            },
            None => None,
        }
    }

    /// The mode that holds for an extension.
    pub open spec fn effective_mode(self, extension: Option<Seq<char>>) -> ExtensionPolicyMode {
        match self.rules(extension) {
            Some(rules) => match rules.mode {
                Some(mode) => mode,
                None => self.mode,
            },
            None => self.mode,
        }
    }

    /// Whether the rules of an extension deny a capability.
    pub open spec fn extension_denies(
        self,
        capability: Seq<char>,
        extension: Option<Seq<char>>,
    ) -> bool {
        self.rules(extension) is Some && self.rules(extension)->0.deny.contains(capability)
    }

    /// Whether the rules of an extension allow a capability.
    pub open spec fn extension_allows(
        self,
        capability: Seq<char>,
        extension: Option<Seq<char>>,
    ) -> bool {
        self.rules(extension) is Some && self.rules(extension)->0.allow.contains(capability)
    }

    /// The decision on a capability: that of the first layer that has one.
    pub open spec fn check(self, capability: Seq<char>, extension: Option<Seq<char>>) -> (
        PolicyDecision,
        Seq<char>,
    ) {
        if self.extension_denies(capability, extension) {
            (PolicyDecision::Deny, "extension_deny"@)
        } else if self.deny_caps.contains(capability) {
            (PolicyDecision::Deny, "deny_caps"@)
        } else if self.extension_allows(capability, extension) {
            (PolicyDecision::Allow, "extension_allow"@)
        } else if self.default_caps.contains(capability) {
            (PolicyDecision::Allow, "default_caps"@)
        } else {
            match self.effective_mode(extension) {
                ExtensionPolicyMode::Strict => (PolicyDecision::Deny, "not_in_default_caps"@),
                ExtensionPolicyMode::Prompt => (PolicyDecision::Prompt, "prompt_required"@),
                ExtensionPolicyMode::Permissive => (PolicyDecision::Allow, "permissive"@),
            }
        }
    }
}

impl ExtensionPolicy {
    /// The rules of an extension.
    fn find_rules(&self, extension: Option<&str>) -> (r: Option<&ExtensionOverride>)
        ensures
            match r {
                Some(rules) => self@.rules(str_chars(extension)) == Some(rules@),
                None => self@.rules(str_chars(extension)) is None,
            },
    {
        let id: &str = match extension {
            Some(id) => id,
            None => return None,
        };
        let ghost model = overrides_view(self.per_extension@);
        let mut i: usize = 0;
        while i < self.per_extension.len()
            invariant
                i <= self.per_extension@.len(),
                extension == Some(id),
                model == overrides_view(self.per_extension@),
                forall|k: int| 0 <= k < i ==> #[trigger] model[k].0 != id@,
            decreases self.per_extension@.len() - i,
        {
            if same_text(self.per_extension[i].0.as_str(), id) {
                proof {
                    lemma_first_members(model, id@, i as int);
                    assert(model.skip(i as int)[0] == model[i as int]);
                    assert(model[i as int].0 == id@);
                }
                return Some(&self.per_extension[i].1);
            }
            assert(model[i as int].0 != id@);
            i = i + 1;
        }
        proof {
            lemma_no_member(model, id@);
        }
        None
    }

    /// Decides on a capability of an extension.
    pub fn evaluate_for(&self, capability: &str, extension: Option<&str>) -> (r: PolicyCheck)
        ensures
            r@ == self@.check(capability@, str_chars(extension)),
    {
        let rules: Option<&ExtensionOverride> = self.find_rules(extension);
        if let Some(rules) = rules {
            if contains_text(&rules.deny, capability) {
                return PolicyCheck { decision: PolicyDecision::Deny, reason: "extension_deny" };
            }
        }
        if contains_text(&self.deny_caps, capability) {
            return PolicyCheck { decision: PolicyDecision::Deny, reason: "deny_caps" };
        }
        if let Some(rules) = rules {
            if contains_text(&rules.allow, capability) {
                return PolicyCheck { decision: PolicyDecision::Allow, reason: "extension_allow" };
            }
        }
        if contains_text(&self.default_caps, capability) {
            return PolicyCheck { decision: PolicyDecision::Allow, reason: "default_caps" };
        }
        let mode: ExtensionPolicyMode = match rules {
            Some(rules) => match rules.mode {
                Some(mode) => mode,
                None => self.mode,
            },
            None => self.mode,
        };
        match mode {
            ExtensionPolicyMode::Strict => PolicyCheck {
                decision: PolicyDecision::Deny,
                reason: "not_in_default_caps",
            },
            ExtensionPolicyMode::Prompt => PolicyCheck {
                decision: PolicyDecision::Prompt,
                reason: "prompt_required",
            },
            ExtensionPolicyMode::Permissive => PolicyCheck {
                decision: PolicyDecision::Allow,
                reason: "permissive",
            },
        }
    }

    /// Decides on a capability without regard to which extension asks.
    pub fn evaluate(&self, capability: &str) -> (r: PolicyCheck)
        ensures
            r@ == self@.check(capability@, None),
    {
        self.evaluate_for(capability, None)
    }

    /// Gives an extension rules in place of those that it may have.
    pub fn set_override(&mut self, id: String, rules: ExtensionOverride)
        ensures
            final(self)@ == (Policy {
                per_extension: old(self)@.per_extension.insert(id@, rules@),
                ..old(self)@
            }),
    {
        let ghost before = overrides_view(self.per_extension@);
        let mut i: usize = 0;
        while i < self.per_extension.len()
            invariant
                *self == *old(self),
                i <= self.per_extension@.len(),
                before == overrides_view(self.per_extension@),
                forall|k: int| 0 <= k < i ==> #[trigger] before[k].0 != id@,
            decreases self.per_extension@.len() - i,
        {
            if same_text(self.per_extension[i].0.as_str(), id.as_str()) {
                self.per_extension.set(i, (id, rules));
                proof {
                    assert(before[i as int].0 == id@);
                    lemma_replace_member(before, i as int, rules@);
                    assert(overrides_view(self.per_extension@) =~= before.update(
                        i as int,
                        (id@, rules@),
                    ));
                }
                return;
            }
            assert(before[i as int].0 != id@);
            i = i + 1;
        }
        self.per_extension.push((id, rules));
        proof {
            lemma_push_member(before, id@, rules@);
            assert(overrides_view(self.per_extension@) =~= before.push((id@, rules@)));
        }
    }
}

// ---------------------------------------------------------------------------------------------
// Profiles
// ---------------------------------------------------------------------------------------------

/// A ready-made policy.
#[derive(Clone, Copy, Debug, PartialEq, Eq, Structural)]
pub enum PolicyProfile {
    Safe,
    Standard,
    Permissive,
}

/// What every profile allows.
pub open spec fn safe_caps() -> Seq<Seq<char>> {
    seq!["read"@, "write"@, "http"@, "events"@, "session"@]
}

/// What no extension may do unless the operator says so.
pub open spec fn dangerous_caps() -> Seq<Seq<char>> {
    seq!["exec"@, "env"@]
}

/// Whether a capability is dangerous.
pub fn is_dangerous(capability: &str) -> (r: bool)
    ensures
        r == dangerous_caps().contains(capability@),
{
    let r: bool = same_text(capability, "exec") || same_text(capability, "env");
    proof {
        assert(dangerous_caps()[0] == "exec"@);
        assert(dangerous_caps()[1] == "env"@);
    }
    r
}

impl PolicyProfile {
    /// The profile that a name stands for, in any case; a name that is not known stands for the
    /// safe one.
    pub open spec fn named(name: Seq<char>) -> PolicyProfile {
        let lowered = ascii_lower(name);
        if lowered == ascii_lower("permissive"@) {
            PolicyProfile::Permissive
        } else if lowered == ascii_lower("balanced"@) || lowered == ascii_lower("standard"@) {
            PolicyProfile::Standard
        } else {
            PolicyProfile::Safe
        }
    }

    /// The name of the profile.
    pub open spec fn name(self) -> Seq<char> {
        match self {
            PolicyProfile::Safe => "safe"@,
            PolicyProfile::Standard => "balanced"@,
            PolicyProfile::Permissive => "permissive"@,
        }
    }

    /// The policy of the profile.
    pub open spec fn policy(self) -> Policy {
        Policy {
            mode: match self {
                PolicyProfile::Safe => ExtensionPolicyMode::Strict,
                PolicyProfile::Standard => ExtensionPolicyMode::Prompt,
                PolicyProfile::Permissive => ExtensionPolicyMode::Permissive,
            },
            default_caps: safe_caps(),
            deny_caps: if self == PolicyProfile::Permissive {
                Seq::empty()
            } else {
                dangerous_caps()
            },
            per_extension: Map::empty(),
        }
    }

    /// The profile that a name stands for.
    pub fn from_name(name: &str) -> (r: PolicyProfile)
        ensures
            r == PolicyProfile::named(name@),
    {
        if eq_ignore_ascii_case(name, "permissive") {
            PolicyProfile::Permissive
        } else if eq_ignore_ascii_case(name, "balanced") || eq_ignore_ascii_case(
            name,
            "standard",
        ) {
            PolicyProfile::Standard
        } else {
            PolicyProfile::Safe
        }
    }

    /// The name of the profile.
    pub fn as_str(&self) -> (r: &'static str)
        ensures
            r@ == self.name(),
    {
        match self {
            PolicyProfile::Safe => "safe",
            PolicyProfile::Standard => "balanced",
            PolicyProfile::Permissive => "permissive",
        }
    }

    /// The policy of the profile.
    pub fn to_policy(&self) -> (r: ExtensionPolicy)
        ensures
            r@ == self.policy(),
    {
        let mut default_caps: Vec<String> = Vec::new();
        default_caps.push("read".to_owned());
        default_caps.push("write".to_owned());
        default_caps.push("http".to_owned());
        default_caps.push("events".to_owned());
        default_caps.push("session".to_owned());
        let mut deny_caps: Vec<String> = Vec::new();
        let mode: ExtensionPolicyMode = match self {
            PolicyProfile::Safe => ExtensionPolicyMode::Strict,
            PolicyProfile::Standard => ExtensionPolicyMode::Prompt,
            PolicyProfile::Permissive => ExtensionPolicyMode::Permissive,
        };
        match self {
            PolicyProfile::Permissive => {},
            _ => {
                deny_caps.push("exec".to_owned());
                deny_caps.push("env".to_owned());
            },
        }
        assert(texts_view(default_caps@) =~= safe_caps());
        assert(texts_view(deny_caps@) =~= self.policy().deny_caps);
        ExtensionPolicy { mode, default_caps, deny_caps, per_extension: Vec::new() }
    }
}

impl Default for ExtensionPolicy {
    fn default() -> (r: ExtensionPolicy)
        ensures
            r@ == PolicyProfile::Standard.policy(),
    {
        PolicyProfile::Standard.to_policy()
    }
}

// ---------------------------------------------------------------------------------------------
// Resolution
// ---------------------------------------------------------------------------------------------

/// The settings of the policy.
#[derive(Debug, PartialEq)]
pub struct ExtensionPolicyConfig {
    /// The name of a profile.
    pub profile: Option<String>,
    /// Whether the policy is permissive where no profile is named. It is unless set otherwise.
    pub default_permissive: Option<bool>,
    /// Whether the operator opts in to dangerous capabilities.
    pub allow_dangerous: Option<bool>,
}

impl Clone for ExtensionPolicyConfig {
    fn clone(&self) -> (r: ExtensionPolicyConfig)
        ensures
            r == *self,
    {
        ExtensionPolicyConfig {
            profile: copy_text(&self.profile),
            default_permissive: self.default_permissive,
            allow_dangerous: self.allow_dangerous,
        }
    }
}

/// Where the name of the profile comes from.
#[derive(Clone, Copy, Debug, PartialEq, Eq, Structural)]
pub enum ProfileSource {
    Cli,
    Env,
    Config,
    Default,
}

impl ProfileSource {
    /// The name of the source.
    pub open spec fn name(self) -> Seq<char> {
        match self {
            ProfileSource::Cli => "cli"@,
            ProfileSource::Env => "env"@,
            ProfileSource::Config => "config"@,
            ProfileSource::Default => "default"@,
        }
    }

    /// The name of the source.
    pub fn as_str(&self) -> (r: &'static str)
        ensures
            r@ == self.name(),
    {
        match self {
            ProfileSource::Cli => "cli",
            ProfileSource::Env => "env",
            ProfileSource::Config => "config",
            ProfileSource::Default => "default",
        }
    }
}

/// The name of the profile that is asked for, and where that name comes from. The command line
/// outweighs the environment, and that outweighs the settings.
pub open spec fn requested_profile(
    cli: Option<Seq<char>>,
    env: Option<Seq<char>>,
    config: Option<ExtensionPolicyConfig>,
) -> (Seq<char>, ProfileSource) {
    if cli is Some {
        (cli->0, ProfileSource::Cli)
    } else if env is Some {
        (env->0, ProfileSource::Env)
    } else {
        match config {
            Some(config) => match (config.profile, config.default_permissive) {
                (Some(profile), _) => (profile@, ProfileSource::Config),
                (None, Some(true)) => ("permissive"@, ProfileSource::Config),
                (None, Some(false)) => ("safe"@, ProfileSource::Config),
                (None, None) => ("permissive"@, ProfileSource::Default),
            },
            None => ("permissive"@, ProfileSource::Default),
        }
    }
}

/// Whether the operator opts in to dangerous capabilities. The environment outweighs the settings.
pub open spec fn opts_in(env: Option<bool>, config: Option<ExtensionPolicyConfig>) -> bool {
    match env {
        Some(allow) => allow,
        None => config is Some && config->0.allow_dangerous == Some(true),
    }
}

/// Whether a text in the environment opts in: `1`, or `true` in any case.
pub open spec fn opt_in_text(text: Seq<char>) -> bool {
    text == "1"@ || ascii_lower(text) == ascii_lower("true"@)
}

/// Reads an opt-in from the environment.
pub fn parse_opt_in(text: &str) -> (r: bool)
    ensures
        r == opt_in_text(text@),
{
    same_text(text, "1") || eq_ignore_ascii_case(text, "true")
}

/// A policy whose dangerous capabilities are no longer denied to all.
pub open spec fn without_dangerous_denies(policy: Policy) -> Policy {
    Policy {
        deny_caps: policy.deny_caps.filter(
            |capability: Seq<char>| !dangerous_caps().contains(capability),
        ),
        ..policy
    }
}

/// The policy that a request for a profile comes to.
pub open spec fn resolved_policy(profile: PolicyProfile, allow_dangerous: bool) -> Policy {
    if allow_dangerous {
        without_dangerous_denies(profile.policy())
    } else {
        profile.policy()
    }
}

/// A policy, and how it was chosen.
#[derive(Debug, PartialEq)]
pub struct ResolvedExtensionPolicy {
    /// The name that was asked for.
    pub requested_profile: String,
    /// The name of the profile that it stands for.
    pub effective_profile: &'static str,
    pub profile_source: &'static str,
    pub allow_dangerous: bool,
    pub policy: ExtensionPolicy,
}

/// The model of a policy and of how it was chosen.
pub struct Resolution {
    pub requested_profile: Seq<char>,
    pub effective_profile: Seq<char>,
    pub profile_source: Seq<char>,
    pub allow_dangerous: bool,
    pub policy: Policy,
}

impl View for ResolvedExtensionPolicy {
    type V = Resolution;

    open spec fn view(&self) -> Resolution {
        Resolution {
            requested_profile: self.requested_profile@,
            effective_profile: self.effective_profile@,
            profile_source: self.profile_source@,
            allow_dangerous: self.allow_dangerous,
            policy: self.policy@,
        }
    }
}

/// What the command line, the environment, which may name a profile and opt in to dangerous
/// capabilities, and the settings come to.
pub open spec fn resolution(
    cli: Option<Seq<char>>,
    env: Option<Seq<char>>,
    env_opt_in: Option<bool>,
    config: Option<ExtensionPolicyConfig>,
) -> Resolution {
    let (requested, source) = requested_profile(cli, env, config);
    let profile = PolicyProfile::named(requested);
    Resolution {
        requested_profile: requested,
        effective_profile: profile.name(),
        profile_source: source.name(),
        allow_dangerous: opts_in(env_opt_in, config),
        policy: resolved_policy(profile, opts_in(env_opt_in, config)),
    }
}

/// Takes the dangerous capabilities out of a list.
fn drop_dangerous(caps: Vec<String>) -> (r: Vec<String>)
    ensures
        texts_view(r@) == texts_view(caps@).filter(
            |capability: Seq<char>| !dangerous_caps().contains(capability),
        ),
{
    let ghost kept = |capability: Seq<char>| !dangerous_caps().contains(capability);
    let ghost all = texts_view(caps@);
    let mut r: Vec<String> = Vec::new();
    let mut i: usize = 0;
    proof {
        reveal(Seq::filter);
        assert(all.take(0) =~= Seq::<Seq<char>>::empty());
        assert(texts_view(r@) =~= all.take(0).filter(kept));
    }
    while i < caps.len()
        invariant
            i <= caps@.len(),
            all == texts_view(caps@),
            kept == |capability: Seq<char>| !dangerous_caps().contains(capability),
            texts_view(r@) == all.take(i as int).filter(kept),
        decreases caps@.len() - i,
    {
        let ghost before = texts_view(r@);
        let ghost next = all.take(i + 1);
        proof {
            reveal(Seq::filter);
            assert(next.drop_last() =~= all.take(i as int));
            assert(next.last() == caps@[i as int]@);
        }
        if !is_dangerous(caps[i].as_str()) {
            r.push(caps[i].clone());
            assert(texts_view(r@) =~= before.push(caps@[i as int]@));
        }
        i = i + 1;
    }
    assert(all.take(i as int) =~= all);
    r
}

/// Chooses the policy from what the command line, the environment and the settings ask for.
pub fn resolve_extension_policy_with_metadata(
    cli: Option<&str>,
    env: Option<&str>,
    env_opt_in: Option<bool>,
    config: Option<&ExtensionPolicyConfig>,
) -> (r: ResolvedExtensionPolicy)
    ensures
        r@ == resolution(
            str_chars(cli),
            str_chars(env),
            env_opt_in,
            match config {
                Some(config) => Some(*config),
                None => None,
            },
        ),
{
    let (requested, source): (String, ProfileSource) = match (cli, env) {
        (Some(name), _) => (name.to_owned(), ProfileSource::Cli),
        (None, Some(name)) => (name.to_owned(), ProfileSource::Env),
        (None, None) => match config {
            Some(config) => match (&config.profile, config.default_permissive) {
                (Some(profile), _) => (profile.clone(), ProfileSource::Config),
                (None, Some(true)) => ("permissive".to_owned(), ProfileSource::Config),
                (None, Some(false)) => ("safe".to_owned(), ProfileSource::Config),
                (None, None) => ("permissive".to_owned(), ProfileSource::Default),
            },
            None => ("permissive".to_owned(), ProfileSource::Default),
        },
    };
    let allow_dangerous: bool = match (env_opt_in, config) {
        (Some(allow), _) => allow,
        (None, Some(config)) => match config.allow_dangerous {
            Some(allow) => allow,
            None => false,
        },
        (None, None) => false,
    };
    let profile: PolicyProfile = PolicyProfile::from_name(requested.as_str());
    let mut policy: ExtensionPolicy = profile.to_policy();
    if allow_dangerous {
        let ExtensionPolicy { mode, default_caps, deny_caps, per_extension } = policy;
        policy = ExtensionPolicy {
            mode,
            default_caps,
            deny_caps: drop_dangerous(deny_caps),
            per_extension,
        };
    }
    ResolvedExtensionPolicy {
        requested_profile: requested,
        effective_profile: profile.as_str(),
        profile_source: source.as_str(),
        allow_dangerous,
        policy,
    }
}

// ---------------------------------------------------------------------------------------------
// Laws
// ---------------------------------------------------------------------------------------------

/// The layers decide in a fixed order: a rule of the extension that denies, a capability that is
/// denied to all, a rule of the extension that allows, a capability that is allowed to all, and
/// the mode. What a later layer says does not matter.
pub proof fn law_first_layer_decides(
    policy: Policy,
    capability: Seq<char>,
    extension: Option<Seq<char>>,
)
    ensures
        ({
            let check = policy.check(capability, extension);
            let denied = policy.extension_denies(capability, extension);
            let denied_to_all = policy.deny_caps.contains(capability);
            let allowed = policy.extension_allows(capability, extension);
            let allowed_to_all = policy.default_caps.contains(capability);
            let unruled = !denied && !denied_to_all && !allowed && !allowed_to_all;
            let mode = policy.effective_mode(extension);
            &&& denied ==> check == (PolicyDecision::Deny, "extension_deny"@)
            &&& !denied && denied_to_all ==> check == (PolicyDecision::Deny, "deny_caps"@)
            &&& !denied && !denied_to_all && allowed ==> check == (
                PolicyDecision::Allow,
                "extension_allow"@,
            )
            &&& !denied && !denied_to_all && !allowed && allowed_to_all ==> check == (
                PolicyDecision::Allow,
                "default_caps"@,
            )
            &&& unruled && mode == ExtensionPolicyMode::Strict ==> check == (
                PolicyDecision::Deny,
                "not_in_default_caps"@,
            )
            &&& unruled && mode == ExtensionPolicyMode::Prompt ==> check == (
                PolicyDecision::Prompt,
                "prompt_required"@,
            )
            &&& unruled && mode == ExtensionPolicyMode::Permissive ==> check == (
                PolicyDecision::Allow,
                "permissive"@,
            )
        }),
{
}

/// What is denied to all is denied to every extension, whatever its rules and the modes are.
pub proof fn law_global_deny_holds_for_all(
    policy: Policy,
    capability: Seq<char>,
    extension: Option<Seq<char>>,
)
    requires
        policy.deny_caps.contains(capability),
    ensures
        policy.check(capability, extension).0 == PolicyDecision::Deny,
{
}

/// The rules of an extension matter to no other extension, nor where no extension is known.
pub proof fn law_rules_are_scoped(
    policy: Policy,
    id: Seq<char>,
    rules: Override,
    capability: Seq<char>,
    extension: Option<Seq<char>>,
)
    requires
        extension != Some(id),
    ensures
        (Policy { per_extension: policy.per_extension.insert(id, rules), ..policy }).check(
            capability,
            extension,
        ) == policy.check(capability, extension),
{
}

/// An extension without rules is decided as if it were not known.
pub proof fn law_no_rules_is_no_extension(policy: Policy, capability: Seq<char>, id: Seq<char>)
    requires
        !policy.per_extension.dom().contains(id),
    ensures
        policy.check(capability, Some(id)) == policy.check(capability, None),
{
}

/// A name that is not that of a profile stands for the safe profile.
pub proof fn law_unknown_profile_is_safe(name: Seq<char>)
    requires
        ascii_lower(name) != "permissive"@,
        ascii_lower(name) != "balanced"@,
        ascii_lower(name) != "standard"@,
    ensures
        PolicyProfile::named(name) == PolicyProfile::Safe,
{
    reveal_strlit("permissive");
    reveal_strlit("balanced");
    reveal_strlit("standard");
    assert(ascii_lower("permissive"@) =~= "permissive"@);
    assert(ascii_lower("balanced"@) =~= "balanced"@);
    assert(ascii_lower("standard"@) =~= "standard"@);
}

/// The command line outweighs everything else, the environment outweighs the settings, and a
/// profile in the settings outweighs the default. An opt-in that the environment gives or refuses
/// outweighs that of the settings, and without either there is none.
pub proof fn law_profile_precedence(
    cli: Option<Seq<char>>,
    env: Option<Seq<char>>,
    env_opt_in: Option<bool>,
    config: Option<ExtensionPolicyConfig>,
)
    ensures
        cli matches Some(name) ==> resolution(cli, env, env_opt_in, config).effective_profile
            == PolicyProfile::named(name).name(),
        cli is None && env is Some ==> resolution(cli, env, env_opt_in, config).effective_profile
            == PolicyProfile::named(env->0).name(),
        cli is None && env is None && config is Some && config->0.profile is Some ==> resolution(
            cli,
            env,
            env_opt_in,
            config,
        ).effective_profile == PolicyProfile::named(config->0.profile->0@).name(),
        env_opt_in matches Some(allow) ==> resolution(cli, env, env_opt_in, config).allow_dangerous
            == allow,
        env_opt_in is None && !(config is Some && config->0.allow_dangerous is Some)
            ==> !resolution(cli, env, env_opt_in, config).allow_dangerous,
{
}

/// Every profile is the profile of its own name.
pub proof fn law_profile_name_roundtrip(profile: PolicyProfile)
    ensures
        PolicyProfile::named(profile.name()) == profile,
{
    reveal_strlit("safe");
    reveal_strlit("permissive");
    reveal_strlit("balanced");
    reveal_strlit("standard");
    assert(ascii_lower("safe"@).len() == 4);
    assert(ascii_lower("permissive"@).len() == 10);
    assert(ascii_lower("balanced"@).len() == 8);
    assert(ascii_lower("standard"@).len() == 8);
}

/// Without the operator's opt-in, and unless the profile is permissive, no extension may use a
/// dangerous capability, whatever rules extensions are given.
pub proof fn law_dangerous_needs_opt_in(
    profile: PolicyProfile,
    per_extension: Map<Seq<char>, Override>,
    capability: Seq<char>,
    extension: Option<Seq<char>>,
)
    requires
        profile != PolicyProfile::Permissive,
        dangerous_caps().contains(capability),
    ensures
        (Policy { per_extension, ..resolved_policy(profile, false) }).check(
            capability,
            extension,
        ).0 == PolicyDecision::Deny,
{
}

/// The operator's opt-in takes the dangerous capabilities, and nothing else, out of what is denied
/// to all.
pub proof fn law_opt_in_lifts_only_dangerous_denies(profile: PolicyProfile, capability: Seq<char>)
    ensures
        resolved_policy(profile, true).deny_caps.contains(capability) <==> resolved_policy(
            profile,
            false,
        ).deny_caps.contains(capability) && !dangerous_caps().contains(capability),
        resolved_policy(profile, true).mode == resolved_policy(profile, false).mode,
        resolved_policy(profile, true).default_caps == resolved_policy(profile, false).default_caps,
{
    let denied = profile.policy().deny_caps;
    let kept = |capability: Seq<char>| !dangerous_caps().contains(capability);
    if denied.filter(kept).contains(capability) {
        broadcast use vstd::seq_lib::group_filter_ensures;

        denied.lemma_filter_contains_rev(kept, capability);
        assert(kept(capability));
    }
}

/// Every profile allows what is harmless to every extension without rules of its own.
pub proof fn law_safe_capabilities_are_allowed(
    profile: PolicyProfile,
    allow_dangerous: bool,
    capability: Seq<char>,
    extension: Option<Seq<char>>,
)
    requires
        safe_caps().contains(capability),
    ensures
        resolved_policy(profile, allow_dangerous).check(capability, extension) == (
            PolicyDecision::Allow,
            "default_caps"@,
        ),
{
    lemma_safe_is_not_dangerous(capability);
    if allow_dangerous {
        law_opt_in_lifts_only_dangerous_denies(profile, capability);
    }
}

proof fn lemma_safe_is_not_dangerous(capability: Seq<char>)
    requires
        safe_caps().contains(capability),
    ensures
        !dangerous_caps().contains(capability),
{
    reveal_strlit("read");
    reveal_strlit("write");
    reveal_strlit("http");
    reveal_strlit("events");
    reveal_strlit("session");
    reveal_strlit("exec");
    reveal_strlit("env");
    assert("env"@.len() == 3 && "exec"@.len() == 4 && "read"@.len() == 4 && "http"@.len() == 4);
    assert("write"@.len() == 5 && "events"@.len() == 6 && "session"@.len() == 7);
    assert("exec"@[0] == 'e' && "read"@[0] == 'r' && "http"@[0] == 'h');
}

/// The decision that a mode stands for where no list speaks of a capability.
pub open spec fn decides(mode: ExtensionPolicyMode, check: (PolicyDecision, Seq<char>)) -> bool {
    &&& mode is Strict ==> check.0 is Deny && check.1 == "not_in_default_caps"@
    &&& mode is Prompt ==> check.0 is Prompt && check.1 == "prompt_required"@
    &&& mode is Permissive ==> check.0 is Allow && check.1 == "permissive"@
}

/// How an extension with rules of its own is decided on. Its list of denials comes first, then what
/// is denied to all, then its list of permissions, then what is allowed to all. Where no list
/// speaks of the capability, the mode in its rules decides, whatever the mode of the policy is; the
/// mode of the policy decides only where the rules name none.
pub proof fn law_extension_with_rules(
    policy: Policy,
    capability: Seq<char>,
    id: Seq<char>,
    rules: Override,
)
    requires
        policy.per_extension.dom().contains(id),
        policy.per_extension[id] == rules,
    ensures
        ({
            let check = policy.check(capability, Some(id));
            let unruled = !rules.deny.contains(capability) && !policy.deny_caps.contains(capability)
                && !rules.allow.contains(capability) && !policy.default_caps.contains(capability);
            &&& rules.deny.contains(capability) ==> check == (
                PolicyDecision::Deny,
                "extension_deny"@,
            )
            &&& !rules.deny.contains(capability) && policy.deny_caps.contains(capability)
                ==> check == (PolicyDecision::Deny, "deny_caps"@)
            &&& !rules.deny.contains(capability) && !policy.deny_caps.contains(capability)
                && rules.allow.contains(capability) ==> check == (
                PolicyDecision::Allow,
                "extension_allow"@,
            )
            &&& !rules.deny.contains(capability) && !policy.deny_caps.contains(capability)
                && !rules.allow.contains(capability) && policy.default_caps.contains(capability)
                ==> check == (PolicyDecision::Allow, "default_caps"@)
            &&& unruled && rules.mode is Some ==> decides(rules.mode->0, check)
            &&& unruled && rules.mode is None ==> decides(policy.mode, check)
        }),
{
}

/// How an extension is decided on that is not known or has no rules of its own: by what is denied
/// to all, then by what is allowed to all, then by the mode of the policy.
pub proof fn law_extension_without_rules(
    policy: Policy,
    capability: Seq<char>,
    extension: Option<Seq<char>>,
)
    requires
        extension matches Some(id) ==> !policy.per_extension.dom().contains(id),
    ensures
        ({
            let check = policy.check(capability, extension);
            &&& policy.deny_caps.contains(capability) ==> check == (
                PolicyDecision::Deny,
                "deny_caps"@,
            )
            &&& !policy.deny_caps.contains(capability) && policy.default_caps.contains(capability)
                ==> check == (PolicyDecision::Allow, "default_caps"@)
            &&& !policy.deny_caps.contains(capability) && !policy.default_caps.contains(capability)
                ==> decides(policy.mode, check)
        }),
{
}

/// The rules of an extension with a mode of its own outweigh the mode of the policy: changing the
/// latter changes nothing for it.
pub proof fn law_own_mode_outweighs(
    policy: Policy,
    other_mode: ExtensionPolicyMode,
    capability: Seq<char>,
    id: Seq<char>,
)
    requires
        policy.per_extension.dom().contains(id),
        policy.per_extension[id].mode is Some,
    ensures
        (Policy { mode: other_mode, ..policy }).check(capability, Some(id)) == policy.check(
            capability,
            Some(id),
        ),
{
}

/// The dangerous capabilities are running programs and reading the environment.
pub proof fn law_dangerous_capabilities(capability: Seq<char>)
    ensures
        dangerous_caps().contains(capability) <==> capability == "exec"@ || capability == "env"@,
{
    assert(dangerous_caps()[0] == "exec"@);
    assert(dangerous_caps()[1] == "env"@);
}

/// What the profiles hold: the safe one is strict, the standard one asks and the permissive one
/// allows. All allow reading, writing, HTTP, events and the session, all but the permissive one
/// deny running programs and reading the environment, and none has rules for single extensions.
pub proof fn law_profiles(profile: PolicyProfile, capability: Seq<char>, id: Seq<char>)
    ensures
        ({
            let policy = profile.policy();
            &&& profile is Safe ==> policy.mode is Strict
            &&& profile is Standard ==> policy.mode is Prompt
            &&& profile is Permissive ==> policy.mode is Permissive
            &&& policy.default_caps.contains(capability) <==> capability == "read"@ || capability
                == "write"@ || capability == "http"@ || capability == "events"@ || capability
                == "session"@
            &&& policy.deny_caps.contains(capability) <==> !(profile is Permissive) && (capability
                == "exec"@ || capability == "env"@)
            &&& !policy.per_extension.dom().contains(id)
        }),
{
    law_dangerous_capabilities(capability);
    assert(safe_caps()[0] == "read"@);
    assert(safe_caps()[1] == "write"@);
    assert(safe_caps()[2] == "http"@);
    assert(safe_caps()[3] == "events"@);
    assert(safe_caps()[4] == "session"@);
}

/// The names of the profiles and of where they come from, and which names stand for which profile.
pub proof fn law_profile_names(name: Seq<char>)
    ensures
        PolicyProfile::Safe.name() == "safe"@,
        PolicyProfile::Standard.name() == "balanced"@,
        PolicyProfile::Permissive.name() == "permissive"@,
        ProfileSource::Cli.name() == "cli"@,
        ProfileSource::Env.name() == "env"@,
        ProfileSource::Config.name() == "config"@,
        ProfileSource::Default.name() == "default"@,
        PolicyProfile::named(name) is Permissive <==> ascii_lower(name) == "permissive"@,
        PolicyProfile::named(name) is Standard <==> ascii_lower(name) == "balanced"@ || ascii_lower(
            name,
        ) == "standard"@,
{
    reveal_strlit("permissive");
    reveal_strlit("balanced");
    reveal_strlit("standard");
    assert(ascii_lower("permissive"@) =~= "permissive"@);
    assert(ascii_lower("balanced"@) =~= "balanced"@);
    assert(ascii_lower("standard"@) =~= "standard"@);
    assert("permissive"@.len() == 10 && "balanced"@.len() == 8 && "standard"@.len() == 8);
}

/// Which profile is asked for, and by whom: the command line before the environment before the
/// settings, where a profile comes before the default. Without any of these the profile is
/// permissive.
pub proof fn law_requested_profile(
    cli: Option<Seq<char>>,
    env: Option<Seq<char>>,
    env_opt_in: Option<bool>,
    config: Option<ExtensionPolicyConfig>,
)
    ensures
        ({
            let result = resolution(cli, env, env_opt_in, config);
            let unset = cli is None && env is None;
            &&& result.effective_profile == PolicyProfile::named(result.requested_profile).name()
            &&& cli is Some ==> result.requested_profile == cli->0 && result.profile_source
                == "cli"@
            &&& cli is None && env is Some ==> result.requested_profile == env->0
                && result.profile_source == "env"@
            &&& unset ==> (config matches Some(settings) ==> {
                &&& settings.profile matches Some(profile) ==> result.requested_profile == profile@
                    && result.profile_source == "config"@
                &&& settings.profile is None && settings.default_permissive == Some(false)
                    ==> result.requested_profile == "safe"@ && result.profile_source == "config"@
                &&& settings.profile is None && settings.default_permissive == Some(true)
                    ==> result.requested_profile == "permissive"@ && result.profile_source
                    == "config"@
                &&& settings.profile is None && settings.default_permissive is None
                    ==> result.requested_profile == "permissive"@ && result.profile_source
                    == "default"@
            })
            &&& unset && config is None ==> result.requested_profile == "permissive"@
                && result.profile_source == "default"@
        }),
{
}

/// The policy that is chosen is that of the profile, but with the operator's opt-in no dangerous
/// capability is denied to all. The environment's word on that outweighs the settings'.
pub proof fn law_chosen_policy(
    cli: Option<Seq<char>>,
    env: Option<Seq<char>>,
    env_opt_in: Option<bool>,
    config: Option<ExtensionPolicyConfig>,
    capability: Seq<char>,
)
    ensures
        ({
            let result = resolution(cli, env, env_opt_in, config);
            let profile = PolicyProfile::named(result.requested_profile);
            let opted = env_opt_in == Some(true) || (env_opt_in is None && (config matches Some(
                settings,
            ) && settings.allow_dangerous == Some(true)));
            &&& result.allow_dangerous == opted
            &&& result.policy.mode == profile.policy().mode
            &&& result.policy.default_caps == profile.policy().default_caps
            &&& result.policy.per_extension == profile.policy().per_extension
            &&& result.policy.deny_caps.contains(capability) <==> !opted && !(profile is Permissive)
                && (capability == "exec"@ || capability == "env"@)
        }),
{
    let result = resolution(cli, env, env_opt_in, config);
    let profile = PolicyProfile::named(result.requested_profile);
    law_profiles(profile, capability, capability);
    law_dangerous_capabilities(capability);
    law_opt_in_lifts_only_dangerous_denies(profile, capability);
}

/// The environment opts in with `1` or with `true`, in any case, and with nothing else.
pub proof fn law_opt_in_words(text: Seq<char>)
    ensures
        opt_in_text(text) <==> text == "1"@ || ascii_lower(text) == "true"@,
{
    reveal_strlit("true");
    assert(ascii_lower("true"@) =~= "true"@);
}

/// The models of checks, rules and policies leave out nothing.
pub proof fn law_policy_models_keep_fields(
    check: PolicyCheck,
    rules: ExtensionOverride,
    policy: ExtensionPolicy,
    resolved: ResolvedExtensionPolicy,
)
    ensures
        check@ == (check.decision, check.reason@),
        rules@.mode == rules.mode,
        rules@.allow == texts_view(rules.allow@),
        rules@.deny == texts_view(rules.deny@),
        policy@.mode == policy.mode,
        policy@.default_caps == texts_view(policy.default_caps@),
        policy@.deny_caps == texts_view(policy.deny_caps@),
        resolved@.requested_profile == resolved.requested_profile@,
        resolved@.effective_profile == resolved.effective_profile@,
        resolved@.profile_source == resolved.profile_source@,
        resolved@.allow_dangerous == resolved.allow_dangerous,
        resolved@.policy == resolved.policy@,
{
}

/// The rules of an extension are the first that stand under its id.
pub proof fn law_rules_stand_under_their_id(policy: ExtensionPolicy, i: int)
    requires
        0 <= i < policy.per_extension@.len(),
        forall|k: int|
            0 <= k < i ==> (#[trigger] policy.per_extension@[k]).0@ != policy.per_extension@[i].0@,
    ensures
        policy@.per_extension.dom().contains(policy.per_extension@[i].0@),
        policy@.per_extension[policy.per_extension@[i].0@] == policy.per_extension@[i].1@,
{
    let model = overrides_view(policy.per_extension@);
    assert forall|k: int| 0 <= k < i implies #[trigger] model[k].0 != model[i].0 by {
        assert(policy.per_extension@[k].0@ != policy.per_extension@[i].0@);
    }
    lemma_member_of_its_key(model, i);
}

/// An id that no rules stand under has none.
pub proof fn law_other_ids_have_no_rules(policy: ExtensionPolicy, id: Seq<char>)
    requires
        forall|k: int|
            0 <= k < policy.per_extension@.len() ==> (#[trigger] policy.per_extension@[k]).0@ != id,
    ensures
        !policy@.per_extension.dom().contains(id),
{
    let model = overrides_view(policy.per_extension@);
    assert forall|k: int| 0 <= k < model.len() implies #[trigger] model[k].0 != id by {
        assert(policy.per_extension@[k].0@ != id);
    }
    lemma_no_member(model, id);
}

} // verus!
