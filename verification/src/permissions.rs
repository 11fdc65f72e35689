//! How a decision of a policy becomes final: what the user has answered before, what the user
//! answers now, and what the assessment of the risk at run time adds.
use vstd::prelude::*;

use crate::members::{
    first_members, lemma_first_members, lemma_no_member, lemma_push_any, lemma_push_member,
    lemma_replace_member,
};
use crate::policy::{dangerous_caps, is_dangerous, PolicyCheck, PolicyDecision};
use crate::text::{opt_chars, same_text, str_chars};

verus! {

broadcast use vstd::string::group_string_axioms;

/// An answer that the user gave.
#[derive(Debug, PartialEq)]
pub struct Permission {
    pub extension: String,
    pub capability: String,
    pub allowed: bool,
}

/// The answers that the user gave, by extension and capability.
#[derive(Debug, PartialEq)]
pub struct PermissionCache {
    entries: Vec<Permission>,
}

/// The models of a list of answers, in their order.
spec fn permissions_view(entries: Seq<Permission>) -> Seq<((Seq<char>, Seq<char>), bool)> {
    entries.map_values(
        |entry: Permission| ((entry.extension@, entry.capability@), entry.allowed),
    )
}

impl View for PermissionCache {
    type V = Map<(Seq<char>, Seq<char>), bool>;

    closed spec fn view(&self) -> Map<(Seq<char>, Seq<char>), bool> {
        first_members(permissions_view(self.entries@))
    }
}

impl PermissionCache {
    /// No answers.
    pub fn new() -> (r: PermissionCache)
        ensures
            r@ == Map::<(Seq<char>, Seq<char>), bool>::empty(),
    {
        PermissionCache { entries: Vec::new() }
    }

    /// The answer that the user gave for a capability of an extension.
    pub fn get(&self, extension: &str, capability: &str) -> (r: Option<bool>)
        ensures
            r == (if self@.dom().contains((extension@, capability@)) {
                Some(self@[(extension@, capability@)])
            } else {
                None
            }),
    {
        let ghost key = (extension@, capability@);
        let ghost model = permissions_view(self.entries@);
        let mut i: usize = 0;
        while i < self.entries.len()
            invariant
                i <= self.entries@.len(),
                key == (extension@, capability@),
                model == permissions_view(self.entries@),
                forall|k: int| 0 <= k < i ==> #[trigger] model[k].0 != key,
            decreases self.entries@.len() - i,
        {
            let entry = &self.entries[i];
            assert(model[i as int].0 == (entry.extension@, entry.capability@));
            if same_text(entry.extension.as_str(), extension) && same_text(
                entry.capability.as_str(),
                capability,
            ) {
                proof {
                    lemma_first_members(model, key, i as int);
                    assert(model.skip(i as int)[0] == model[i as int]);
                }
                return Some(entry.allowed);
            }
            i = i + 1;
        }
        proof {
            lemma_no_member(model, key);
        }
        None
    }

    /// Keeps an answer for future calls, in place of an earlier one.
    pub fn record(&mut self, extension: String, capability: String, allowed: bool)
        ensures
            final(self)@ == old(self)@.insert((extension@, capability@), allowed),
    {
        let ghost key = (extension@, capability@);
        let ghost before = permissions_view(self.entries@);
        let mut i: usize = 0;
        while i < self.entries.len()
            invariant
                *self == *old(self),
                i <= self.entries@.len(),
                key == (extension@, capability@),
                before == permissions_view(self.entries@),
                forall|k: int| 0 <= k < i ==> #[trigger] before[k].0 != key,
            decreases self.entries@.len() - i,
        {
            let same: bool = same_text(self.entries[i].extension.as_str(), extension.as_str())
                && same_text(self.entries[i].capability.as_str(), capability.as_str());
            assert(before[i as int].0 == (
                self.entries@[i as int].extension@,
                self.entries@[i as int].capability@,
            ));
            if same {
                self.entries.set(i, Permission { extension, capability, allowed });
                proof {
                    lemma_replace_member(before, i as int, allowed);
                    assert(permissions_view(self.entries@) =~= before.update(
                        i as int,
                        (key, allowed),
                    ));
                }
                return;
            }
            i = i + 1;
        }
        self.entries.push(Permission { extension, capability, allowed });
        proof {
            lemma_push_member(before, key, allowed);
            assert(permissions_view(self.entries@) =~= before.push((key, allowed)));
        }
    }

    /// Forgets every answer for an extension.
    pub fn revoke_extension(&mut self, extension: &str)
        ensures
            final(self)@ == old(self)@.remove_keys(
                Set::new(|key: (Seq<char>, Seq<char>)| key.0 == extension@),
            ),
    {
        let ghost gone = Set::new(|key: (Seq<char>, Seq<char>)| key.0 == extension@);
        let ghost all = permissions_view(self.entries@);
        let mut kept: Vec<Permission> = Vec::new();
        let mut i: usize = 0;
        assert(all.take(0) =~= Seq::empty());
        assert(permissions_view(kept@) =~= Seq::empty());
        assert(first_members(permissions_view(kept@)) =~= first_members(all.take(0)).remove_keys(
            gone,
        ));
        while i < self.entries.len()
            invariant
                *self == *old(self),
                i <= self.entries@.len(),
                all == permissions_view(self.entries@),
                gone == Set::new(|key: (Seq<char>, Seq<char>)| key.0 == extension@),
                first_members(permissions_view(kept@)) == first_members(
                    all.take(i as int),
                ).remove_keys(gone),
            decreases self.entries@.len() - i,
        {
            let entry = &self.entries[i];
            let ghost seen = all.take(i as int);
            let ghost key = all[i as int].0;
            let ghost allowed = all[i as int].1;
            let ghost listed = permissions_view(kept@);
            proof {
                assert(all.take(i + 1) =~= seen.push((key, allowed)));
                lemma_push_any(seen, key, allowed);
                lemma_push_any(listed, key, allowed);
            }
            if !same_text(entry.extension.as_str(), extension) {
                kept.push(
                    Permission {
                        extension: entry.extension.clone(),
                        capability: entry.capability.clone(),
                        allowed: entry.allowed,
                    },
                );
                assert(permissions_view(kept@) =~= listed.push((key, allowed)));
            }
            assert(first_members(permissions_view(kept@)) =~= first_members(
                all.take(i + 1),
            ).remove_keys(gone));
            i = i + 1;
        }
        assert(all.take(i as int) =~= all);
        self.entries = kept;
    }

    /// Forgets every answer.
    pub fn reset_all(&mut self)
        ensures
            final(self)@ == Map::<(Seq<char>, Seq<char>), bool>::empty(),
    {
        self.entries = Vec::new();
    }
}

// ---------------------------------------------------------------------------------------------
// Prompts
// ---------------------------------------------------------------------------------------------

/// What happens where the user is to be asked.
#[derive(Clone, Copy, Debug, PartialEq, Eq)]
pub enum PromptStep {
    /// Nobody is asked.
    Decided(PolicyCheck),
    /// The user is asked.
    Ask,
}

/// The model of such a step; `None` where the user is asked.
pub open spec fn step_view(step: PromptStep) -> Option<(PolicyDecision, Seq<char>)> {
    match step {
        PromptStep::Decided(check) => Some(check@),
        PromptStep::Ask => None,
    }
}

/// The answer that was given for a capability of an extension. There is none for an extension that
/// is not known.
pub open spec fn earlier_answer(
    answers: Map<(Seq<char>, Seq<char>), bool>,
    extension: Option<Seq<char>>,
    capability: Seq<char>,
) -> Option<bool> {
    if extension is Some && answers.dom().contains((extension->0, capability)) {
        Some(answers[(extension->0, capability)])
    } else {
        None
    }
}

/// The step for a capability of an extension: an earlier answer holds, and where nobody can be
/// asked, the capability is denied.
pub open spec fn prompt_step(
    answers: Map<(Seq<char>, Seq<char>), bool>,
    extension: Option<Seq<char>>,
    capability: Seq<char>,
    reachable: bool,
) -> Option<(PolicyDecision, Seq<char>)> {
    match earlier_answer(answers, extension, capability) {
        Some(true) => Some((PolicyDecision::Allow, "prompt_cache_allow"@)),
        Some(false) => Some((PolicyDecision::Deny, "prompt_cache_deny"@)),
        None => if reachable {
            None
        } else {
            Some((PolicyDecision::Deny, "shutdown"@))
        },
    }
}

/// The answers after another one. An answer for an extension that is not known holds for no later
/// call.
pub open spec fn answers_with(
    answers: Map<(Seq<char>, Seq<char>), bool>,
    extension: Option<Seq<char>>,
    capability: Seq<char>,
    allowed: bool,
) -> Map<(Seq<char>, Seq<char>), bool> {
    match extension {
        Some(id) => answers.insert((id, capability), allowed),
        None => answers,
    }
}

/// The decision that an answer of the user stands for.
pub open spec fn answer_check(allowed: bool) -> (PolicyDecision, Seq<char>) {
    if allowed {
        (PolicyDecision::Allow, "prompt_user_allow"@)
    } else {
        (PolicyDecision::Deny, "prompt_user_deny"@)
    }
}

/// Decides whether the user is asked for a capability of an extension, given whether there is
/// anyone to ask.
pub fn resolve_prompt(
    cache: &PermissionCache,
    extension: Option<&str>,
    capability: &str,
    reachable: bool,
) -> (r: PromptStep)
    ensures
        step_view(r) == prompt_step(cache@, str_chars(extension), capability@, reachable),
{
    let answer: Option<bool> = match extension {
        Some(id) => cache.get(id, capability),
        None => None,
    };
    match answer {
        Some(true) => PromptStep::Decided(
            PolicyCheck { decision: PolicyDecision::Allow, reason: "prompt_cache_allow" },
        ),
        Some(false) => PromptStep::Decided(
            PolicyCheck { decision: PolicyDecision::Deny, reason: "prompt_cache_deny" },
        ),
        None => if reachable {
            PromptStep::Ask
        } else {
            PromptStep::Decided(
                PolicyCheck { decision: PolicyDecision::Deny, reason: "shutdown" },
            )
        },
    }
}

/// Takes the answer of the user, and keeps it for future calls of the extension.
pub fn prompt_answered(
    cache: &mut PermissionCache,
    extension: Option<String>,
    capability: String,
    allowed: bool,
) -> (r: PolicyCheck)
    ensures
        r@ == answer_check(allowed),
        final(cache)@ == answers_with(old(cache)@, opt_chars(extension), capability@, allowed),
{
    if let Some(id) = extension {
        cache.record(id, capability, allowed);
    }
    if allowed {
        PolicyCheck { decision: PolicyDecision::Allow, reason: "prompt_user_allow" }
    } else {
        PolicyCheck { decision: PolicyDecision::Deny, reason: "prompt_user_deny" }
    }
}

// ---------------------------------------------------------------------------------------------
// Risk at run time
// ---------------------------------------------------------------------------------------------

/// What the assessment of a call asks for.
#[derive(Clone, Copy, Debug, PartialEq, Eq, Structural)]
pub enum RiskAction {
    Allow,
    Harden,
    Deny,
    Terminate,
}

/// What finally happens to a call.
#[derive(Clone, Copy, Debug, PartialEq, Eq, Structural)]
pub enum FinalDecision {
    Allow,
    /// The call is made, under tighter conditions.
    AllowHardened,
    Deny,
    /// The call is not made, and the extension is shut out.
    Quarantine,
}

impl FinalDecision {
    /// Whether the call is made.
    pub open spec fn allows(self) -> bool {
        self == FinalDecision::Allow || self == FinalDecision::AllowHardened
    }
}

/// What finally happens to a call that the policy allows or denies. Without an assessment the
/// policy stands.
pub open spec fn overlay(
    policy_allows: bool,
    risk: Option<RiskAction>,
    capability: Seq<char>,
) -> FinalDecision {
    if !policy_allows {
        FinalDecision::Deny
    } else {
        match risk {
            None | Some(RiskAction::Allow) => FinalDecision::Allow,
            Some(RiskAction::Harden) => if dangerous_caps().contains(capability) {
                FinalDecision::Deny
            } else {
                FinalDecision::AllowHardened
            },
            Some(RiskAction::Deny) => FinalDecision::Deny,
            Some(RiskAction::Terminate) => FinalDecision::Quarantine,
        }
    }
}

/// Lays the assessment of a call, where there is one, over the decision of the policy.
pub fn apply_runtime_risk(policy_allows: bool, risk: Option<RiskAction>, capability: &str) -> (r:
    FinalDecision)
    ensures
        r == overlay(policy_allows, risk, capability@),
{
    if !policy_allows {
        return FinalDecision::Deny;
    }
    match risk {
        None | Some(RiskAction::Allow) => FinalDecision::Allow,
        Some(RiskAction::Harden) => if is_dangerous(capability) {
            FinalDecision::Deny
        } else {
            FinalDecision::AllowHardened
        },
        Some(RiskAction::Deny) => FinalDecision::Deny,
        Some(RiskAction::Terminate) => FinalDecision::Quarantine,
    }
}

// ---------------------------------------------------------------------------------------------
// Laws
// ---------------------------------------------------------------------------------------------

/// An answer of the user holds for every later call of that extension for that capability,
/// whether or not anyone can be asked then, and for no other.
pub proof fn law_answer_is_remembered(
    answers: Map<(Seq<char>, Seq<char>), bool>,
    extension: Seq<char>,
    capability: Seq<char>,
    allowed: bool,
    other_extension: Option<Seq<char>>,
    other_capability: Seq<char>,
    reachable: bool,
)
    ensures
        ({
            let after = answers_with(answers, Some(extension), capability, allowed);
            &&& prompt_step(after, Some(extension), capability, reachable) matches Some(check)
                && check.0 == answer_check(allowed).0
            &&& (other_extension, other_capability) != (
                Some(extension),
                capability,
            ) ==> prompt_step(
                after,
                other_extension,
                other_capability,
                reachable,
            ) == prompt_step(answers, other_extension, other_capability, reachable)
        }),
{
}

/// Where nobody can be asked, a capability is allowed only where the user has allowed it before.
pub proof fn law_unreachable_user_means_deny(
    answers: Map<(Seq<char>, Seq<char>), bool>,
    extension: Option<Seq<char>>,
    capability: Seq<char>,
)
    ensures
        prompt_step(answers, extension, capability, false) matches Some(check) && (check.0
            == PolicyDecision::Allow || check.0 == PolicyDecision::Deny) && (check.0
            == PolicyDecision::Allow <==> earlier_answer(answers, extension, capability) == Some(
            true,
        )),
{
}

/// An extension whose answers are forgotten is asked for anew; any other is as before.
pub proof fn law_revocation_is_scoped(
    answers: Map<(Seq<char>, Seq<char>), bool>,
    revoked: Seq<char>,
    extension: Option<Seq<char>>,
    capability: Seq<char>,
    reachable: bool,
)
    ensures
        ({
            let after = answers.remove_keys(
                Set::new(|key: (Seq<char>, Seq<char>)| key.0 == revoked),
            );
            prompt_step(after, extension, capability, reachable) == (if extension == Some(revoked) {
                prompt_step(Map::empty(), extension, capability, reachable)
            } else {
                prompt_step(answers, extension, capability, reachable)
            })
        }),
{
}

/// An assessment only ever tightens: what the policy denies stays denied whatever the assessment
/// says, and without one the policy stands.
pub proof fn law_risk_only_tightens(
    policy_allows: bool,
    risk: Option<RiskAction>,
    capability: Seq<char>,
)
    ensures
        overlay(policy_allows, risk, capability).allows() ==> policy_allows,
        !policy_allows ==> overlay(policy_allows, risk, capability) == FinalDecision::Deny,
        overlay(policy_allows, None, capability).allows() == policy_allows,
{
}

/// A dangerous capability is never used under tighter conditions: it is allowed or it is not.
pub proof fn law_dangerous_capability_is_not_hardened(
    policy_allows: bool,
    risk: Option<RiskAction>,
    capability: Seq<char>,
)
    requires
        dangerous_caps().contains(capability),
    ensures
        overlay(policy_allows, risk, capability) != FinalDecision::AllowHardened,
{
}

/// What is done for a capability that is left to the user: an answer that was given for this
/// extension and this capability holds; without one the user is asked, or the capability is denied
/// where nobody can be asked.
pub proof fn law_prompt_steps(
    answers: Map<(Seq<char>, Seq<char>), bool>,
    extension: Option<Seq<char>>,
    capability: Seq<char>,
    reachable: bool,
)
    ensures
        ({
            let step = prompt_step(answers, extension, capability, reachable);
            let answered = extension matches Some(id) && answers.dom().contains((id, capability));
            &&& answered && answers[(extension->0, capability)] ==> step == Some(
                (PolicyDecision::Allow, "prompt_cache_allow"@),
            )
            &&& answered && !answers[(extension->0, capability)] ==> step == Some(
                (PolicyDecision::Deny, "prompt_cache_deny"@),
            )
            &&& !answered && !reachable ==> step == Some((PolicyDecision::Deny, "shutdown"@))
            &&& !answered && reachable ==> step is None
        }),
{
}

/// What an answer means, and what is kept of it: that extension and that capability only, and
/// nothing where the extension is not known.
pub proof fn law_answers(
    answers: Map<(Seq<char>, Seq<char>), bool>,
    id: Seq<char>,
    capability: Seq<char>,
    allowed: bool,
)
    ensures
        answer_check(true) == (PolicyDecision::Allow, "prompt_user_allow"@),
        answer_check(false) == (PolicyDecision::Deny, "prompt_user_deny"@),
        answers_with(answers, Some(id), capability, allowed) == answers.insert(
            (id, capability),
            allowed,
        ),
        answers_with(answers, None, capability, allowed) == answers,
{
}

/// What finally happens to a call, for every assessment of its risk.
pub proof fn law_final_decisions(capability: Seq<char>, risk: Option<RiskAction>)
    ensures
        overlay(false, risk, capability) is Deny,
        overlay(true, None, capability) is Allow,
        overlay(true, Some(RiskAction::Allow), capability) is Allow,
        capability == "exec"@ || capability == "env"@ ==> overlay(
            true,
            Some(RiskAction::Harden),
            capability,
        ) is Deny,
        capability != "exec"@ && capability != "env"@ ==> overlay(
            true,
            Some(RiskAction::Harden),
            capability,
        ) is AllowHardened,
        overlay(true, Some(RiskAction::Deny), capability) is Deny,
        overlay(true, Some(RiskAction::Terminate), capability) is Quarantine,
{
    crate::policy::law_dangerous_capabilities(capability);
}

/// The model of a step is the check that was decided, and nothing where the user is asked.
pub proof fn law_step_model(step: PromptStep)
    ensures
        step matches PromptStep::Decided(check) ==> step_view(step) == Some(
            (check.decision, check.reason@),
        ),
        step is Ask ==> step_view(step) is None,
{
}

} // verus!
