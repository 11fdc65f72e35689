//! Calls of extensions into the host: the capability that a call needs, and whether it is made.
use vstd::prelude::*;
use vstd::string::*;

use crate::json::{Json, Value};
use crate::permissions::{
    earlier_answer, prompt_step, resolve_prompt, PermissionCache, PromptStep,
};
use crate::policy::{ExtensionPolicy, Policy, PolicyCheck, PolicyDecision};
use crate::text::{
    ascii_lower, blank, law_blank_is_all_white_space, same_text, str_chars, to_ascii_lowercase,
    trim, trimmed, white_space,
};

verus! {

broadcast use vstd::string::group_string_axioms;

/// A call of an extension into the host.
#[derive(Debug, PartialEq)]
pub struct HostCallPayload {
    pub call_id: String,
    /// The capability that the caller declares.
    pub capability: String,
    pub method: String,
    pub params: Value,
    pub timeout_ms: Option<u64>,
    pub cancel_token: Option<String>,
    pub context: Option<Value>,
}

/// Why a call is not made.
#[derive(Clone, Copy, Debug, PartialEq, Eq, Structural)]
pub enum HostCallErrorCode {
    /// The call makes no sense, or does not declare what it needs.
    InvalidRequest,
    /// The policy or the user denies it.
    Denied,
}

/// A name as it counts: without white space around it and in lower case.
pub open spec fn canonical(name: Seq<char>) -> Seq<char> {
    ascii_lower(trimmed(name))
}

/// A name as it counts.
fn canonical_name(name: &str) -> (r: String)
    ensures
        r@ == canonical(name@),
{
    to_ascii_lowercase(trim(name))
}

/// The capability that running a tool needs; `None` where it has no name.
pub open spec fn tool_capability(name: Seq<char>) -> Option<Seq<char>> {
    if name.len() == 0 {
        None
    } else if name == "read"@ || name == "grep"@ || name == "find"@ || name == "ls"@ {
        Some("read"@)
    } else if name == "write"@ || name == "edit"@ {
        Some("write"@)
    } else if name == "bash"@ {
        Some("exec"@)
    } else {
        Some("tool"@)
    }
}

/// The capability that an operation on files needs; `None` where there is no such operation.
pub open spec fn fs_capability(op: Seq<char>) -> Option<Seq<char>> {
    if op == "read"@ || op == "list"@ || op == "readdir"@ || op == "stat"@ {
        Some("read"@)
    } else if op == "write"@ || op == "mkdir"@ || op == "delete"@ || op == "remove"@ || op
        == "rm"@ {
        Some("write"@)
    } else {
        None
    }
}

/// Whether a method needs the capability of its own name, whatever its parameters are.
pub open spec fn direct_method(method: Seq<char>) -> bool {
    method == "exec"@ || method == "env"@ || method == "http"@ || method == "session"@ || method
        == "ui"@ || method == "events"@ || method == "log"@
}

/// The capability that a call needs, from its method and its parameters alone; `None` where there
/// is no such method, or its parameters do not say what it does.
pub open spec fn required_capability(method: Seq<char>, params: Json) -> Option<Seq<char>> {
    let name = canonical(method);
    if name == "tool"@ {
        match params.get_str("name"@) {
            Some(tool) => tool_capability(canonical(tool)),
            None => None,
        }
    } else if name == "fs"@ {
        match params.get_str("op"@) {
            Some(op) => fs_capability(canonical(op)),
            None => None,
        }
    } else if direct_method(name) {
        Some(name)
    } else {
        None
    }
}

/// The model of a capability that may be absent.
pub open spec fn capability_view(capability: Option<&'static str>) -> Option<Seq<char>> {
    match capability {
        Some(capability) => Some(capability@),
        None => None,
    }
}

fn capability_of_tool(name: &str) -> (r: Option<&'static str>)
    ensures
        capability_view(r) == tool_capability(name@),
{
    if name.is_empty() {
        None
    } else if same_text(name, "read") || same_text(name, "grep") || same_text(name, "find")
        || same_text(name, "ls") {
        Some("read")
    } else if same_text(name, "write") || same_text(name, "edit") {
        Some("write")
    } else if same_text(name, "bash") {
        Some("exec")
    } else {
        Some("tool")
    }
}

fn capability_of_fs(op: &str) -> (r: Option<&'static str>)
    ensures
        capability_view(r) == fs_capability(op@),
{
    if same_text(op, "read") || same_text(op, "list") || same_text(op, "readdir") || same_text(
        op,
        "stat",
    ) {
        Some("read")
    } else if same_text(op, "write") || same_text(op, "mkdir") || same_text(op, "delete")
        || same_text(op, "remove") || same_text(op, "rm") {
        Some("write")
    } else {
        None
    }
}

fn capability_of_method(method: &str) -> (r: Option<&'static str>)
    ensures
        capability_view(r) == (if direct_method(method@) {
            Some(method@)
        } else {
            None
        }),
{
    if same_text(method, "exec") {
        Some("exec")
    } else if same_text(method, "env") {
        Some("env")
    } else if same_text(method, "http") {
        Some("http")
    } else if same_text(method, "session") {
        Some("session")
    } else if same_text(method, "ui") {
        Some("ui")
    } else if same_text(method, "events") {
        Some("events")
    } else if same_text(method, "log") {
        Some("log")
    } else {
        None
    }
}

/// The capability that a call needs.
pub fn required_capability_for_host_call(call: &HostCallPayload) -> (r: Option<&'static str>)
    ensures
        capability_view(r) == required_capability(call.method@, call.params@),
{
    let method: String = canonical_name(call.method.as_str());
    if same_text(method.as_str(), "tool") {
        match call.params.get_str("name") {
            Some(name) => {
                let name: String = canonical_name(name);
                capability_of_tool(name.as_str())
            },
            None => None,
        }
    } else if same_text(method.as_str(), "fs") {
        match call.params.get_str("op") {
            Some(op) => {
                let op: String = canonical_name(op);
                capability_of_fs(op.as_str())
            },
            None => None,
        }
    } else {
        capability_of_method(method.as_str())
    }
}

/// Whether a call makes sense and declares the capability that it needs.
pub open spec fn valid_call(call: HostCallPayload) -> bool {
    &&& !blank(call.call_id@)
    &&& call.params@ is Object
    &&& !blank(call.capability@)
    &&& !blank(call.method@)
    &&& required_capability(call.method@, call.params@) == Some(call.capability@)
}

/// Refuses a call that makes no sense or does not declare the capability that it needs. Returns
/// that capability.
pub fn validate_host_call(call: &HostCallPayload) -> (r: Result<&'static str, HostCallErrorCode>)
    ensures
        match r {
            Ok(capability) => valid_call(*call) && capability@ == call.capability@,
            Err(code) => !valid_call(*call) && code == HostCallErrorCode::InvalidRequest,
        },
{
    if trim(call.call_id.as_str()).is_empty() {
        return Err(HostCallErrorCode::InvalidRequest);
    }
    match &call.params {
        Value::Object(_) => {},
        _ => {
            return Err(HostCallErrorCode::InvalidRequest);
        },
    }
    if trim(call.capability.as_str()).is_empty() || trim(call.method.as_str()).is_empty() {
        return Err(HostCallErrorCode::InvalidRequest);
    }
    match required_capability_for_host_call(call) {
        Some(capability) => if same_text(capability, call.capability.as_str()) {
            Ok(capability)
        } else {
            Err(HostCallErrorCode::InvalidRequest)
        },
        None => Err(HostCallErrorCode::InvalidRequest),
    }
}

/// What happens next to a call.
#[derive(Clone, Copy, Debug, PartialEq, Eq)]
pub enum HostCallStep {
    /// It is not made, for the named reason.
    Refuse(HostCallErrorCode, &'static str),
    /// The user is asked.
    Ask,
    /// It is made, unless the assessment of its risk says otherwise.
    Assess,
}

/// The model of a step.
pub enum Step {
    Refuse(HostCallErrorCode, Seq<char>),
    Ask,
    Assess,
}

impl View for HostCallStep {
    type V = Step;

    open spec fn view(&self) -> Step {
        match self {
            HostCallStep::Refuse(code, reason) => Step::Refuse(*code, reason@),
            HostCallStep::Ask => Step::Ask,
            HostCallStep::Assess => Step::Assess,
        }
    }
}

/// The step that a decision comes to.
pub open spec fn step_of(check: (PolicyDecision, Seq<char>)) -> Step {
    match check.0 {
        PolicyDecision::Allow => Step::Assess,
        PolicyDecision::Prompt => Step::Ask,
        PolicyDecision::Deny => Step::Refuse(HostCallErrorCode::Denied, check.1),
    }
}

/// What happens next to a call of an extension: it is checked, then decided by the policy, and
/// where that leaves it to the user, by what the user has answered before.
pub open spec fn call_step(
    policy: Policy,
    call: HostCallPayload,
    extension: Option<Seq<char>>,
    answers: Map<(Seq<char>, Seq<char>), bool>,
    reachable: bool,
) -> Step {
    if !valid_call(call) {
        Step::Refuse(HostCallErrorCode::InvalidRequest, "invalid_request"@)
    } else {
        let check = policy.check(call.capability@, extension);
        if check.0 == PolicyDecision::Prompt {
            match prompt_step(answers, extension, call.capability@, reachable) {
                Some(check) => step_of(check),
                None => Step::Ask,
            }
        } else {
            step_of(check)
        }
    }
}

/// The step that a decision comes to.
fn step_for(check: PolicyCheck) -> (r: HostCallStep)
    ensures
        r@ == step_of(check@),
{
    match check.decision {
        PolicyDecision::Allow => HostCallStep::Assess,
        PolicyDecision::Prompt => HostCallStep::Ask,
        PolicyDecision::Deny => HostCallStep::Refuse(HostCallErrorCode::Denied, check.reason),
    }
}

/// Decides what happens next to a call of an extension, given which extension it is, where that is
/// known, what the user has answered before, and whether there is anyone to ask.
pub fn host_call_step(
    policy: &ExtensionPolicy,
    call: &HostCallPayload,
    extension: Option<&str>,
    cache: &PermissionCache,
    reachable: bool,
) -> (r: HostCallStep)
    ensures
        r@ == call_step(policy@, *call, str_chars(extension), cache@, reachable),
{
    let capability: &'static str = match validate_host_call(call) {
        Ok(capability) => capability,
        Err(code) => {
            return HostCallStep::Refuse(code, "invalid_request");
        },
    };
    let check: PolicyCheck = policy.evaluate_for(capability, extension);
    match check.decision {
        PolicyDecision::Prompt => match resolve_prompt(cache, extension, capability, reachable) {
            PromptStep::Decided(check) => step_for(check),
            PromptStep::Ask => HostCallStep::Ask,
        },
        _ => step_for(check),
    }
}

// ---------------------------------------------------------------------------------------------
// Laws
// ---------------------------------------------------------------------------------------------

/// What a call declares is not trusted: a call goes on only with the capability that its method
/// and its parameters need.
pub proof fn law_declaration_is_not_trusted(
    policy: Policy,
    call: HostCallPayload,
    extension: Option<Seq<char>>,
    answers: Map<(Seq<char>, Seq<char>), bool>,
    reachable: bool,
)
    ensures
        call_step(policy, call, extension, answers, reachable) is Refuse || required_capability(
            call.method@,
            call.params@,
        ) == Some(call.capability@),
{
}

/// A call of an unknown method, or one that declares another capability than it needs, is refused
/// as invalid, whatever the policy and the user say.
pub proof fn law_unknown_or_mismatched_call_is_refused(
    policy: Policy,
    call: HostCallPayload,
    extension: Option<Seq<char>>,
    answers: Map<(Seq<char>, Seq<char>), bool>,
    reachable: bool,
)
    requires
        required_capability(call.method@, call.params@) != Some(call.capability@),
    ensures
        call_step(policy, call, extension, answers, reachable) == Step::Refuse(
            HostCallErrorCode::InvalidRequest,
            "invalid_request"@,
        ),
{
}

/// No answer of the user lifts what the policy denies.
pub proof fn law_answers_do_not_lift_a_deny(
    policy: Policy,
    call: HostCallPayload,
    extension: Option<Seq<char>>,
    answers: Map<(Seq<char>, Seq<char>), bool>,
    reachable: bool,
)
    requires
        policy.check(call.capability@, extension).0 == PolicyDecision::Deny,
    ensures
        call_step(policy, call, extension, answers, reachable) is Refuse,
{
}

/// A call is never left waiting for an answer that nobody can give, and where the policy leaves it
/// to the user, it is then made only where the user has allowed it before.
pub proof fn law_unreachable_user_never_widens(
    policy: Policy,
    call: HostCallPayload,
    extension: Option<Seq<char>>,
    answers: Map<(Seq<char>, Seq<char>), bool>,
)
    ensures
        !(call_step(policy, call, extension, answers, false) is Ask),
        call_step(policy, call, extension, answers, false) is Assess && policy.check(
            call.capability@,
            extension,
        ).0 == PolicyDecision::Prompt ==> earlier_answer(answers, extension, call.capability@)
            == Some(true),
{
}

/// The case of a method, and white space around it, do not matter.
pub proof fn law_method_spelling_does_not_matter(
    method: Seq<char>,
    spelling: Seq<char>,
    params: Json,
)
    requires
        canonical(method) == canonical(spelling),
    ensures
        required_capability(method, params) == required_capability(spelling, params),
{
}

/// Running a tool needs the capability of what the tool does: the four that look need `read`, the
/// two that change files `write`, the shell `exec`, and any other `tool`. A call that names no tool
/// needs none that is known. Case and outer white space of the names do not matter.
pub proof fn law_tools_need(method: Seq<char>, params: Json, tool: Seq<char>)
    requires
        ascii_lower(trimmed(method)) == "tool"@,
        params.get("name"@) == Some(Json::String(tool)),
    ensures
        ({
            let name = ascii_lower(trimmed(tool));
            let needed = required_capability(method, params);
            let looks = name == "read"@ || name == "grep"@ || name == "find"@ || name == "ls"@;
            let changes = name == "write"@ || name == "edit"@;
            &&& name.len() == 0 ==> needed is None
            &&& looks ==> needed == Some("read"@)
            &&& changes ==> needed == Some("write"@)
            &&& name == "bash"@ ==> needed == Some("exec"@)
            &&& name.len() > 0 && !looks && !changes && name != "bash"@ ==> needed == Some("tool"@)
        }),
{
    reveal_strlit("read");
    reveal_strlit("grep");
    reveal_strlit("find");
    reveal_strlit("ls");
    reveal_strlit("write");
    reveal_strlit("edit");
    reveal_strlit("bash");
    assert("read"@.len() == 4 && "grep"@.len() == 4 && "find"@.len() == 4 && "ls"@.len() == 2);
    assert("write"@.len() == 5 && "edit"@.len() == 4 && "bash"@.len() == 4);
    assert("read"@[0] == 'r' && "grep"@[0] == 'g' && "find"@[0] == 'f');
    assert("edit"@[0] == 'e' && "bash"@[0] == 'b');
}

/// Four operations on files need `read`, five need `write`, and there are no others. Case and outer
/// white space of the names do not matter.
pub proof fn law_file_operations_need(method: Seq<char>, params: Json, operation: Seq<char>)
    requires
        ascii_lower(trimmed(method)) == "fs"@,
        params.get("op"@) == Some(Json::String(operation)),
    ensures
        ({
            let op = ascii_lower(trimmed(operation));
            let needed = required_capability(method, params);
            let looks = op == "read"@ || op == "list"@ || op == "readdir"@ || op == "stat"@;
            let changes = op == "write"@ || op == "mkdir"@ || op == "delete"@ || op == "remove"@
                || op == "rm"@;
            &&& looks ==> needed == Some("read"@)
            &&& changes ==> needed == Some("write"@)
            &&& !looks && !changes ==> needed is None
        }),
{
    reveal_strlit("tool");
    reveal_strlit("fs");
    assert("tool"@.len() == 4 && "fs"@.len() == 2);
    reveal_strlit("read");
    reveal_strlit("list");
    reveal_strlit("readdir");
    reveal_strlit("stat");
    reveal_strlit("write");
    reveal_strlit("mkdir");
    reveal_strlit("delete");
    reveal_strlit("remove");
    reveal_strlit("rm");
    assert("read"@.len() == 4 && "list"@.len() == 4 && "readdir"@.len() == 7 && "stat"@.len() == 4);
    assert("write"@.len() == 5 && "mkdir"@.len() == 5 && "delete"@.len() == 6 && "remove"@.len()
        == 6 && "rm"@.len() == 2);
}

/// A tool or an operation on files that is not named by a text needs no capability that is known.
pub proof fn law_unnamed_work_is_unknown(method: Seq<char>, params: Json)
    ensures
        ascii_lower(trimmed(method)) == "tool"@ && !(params.get("name"@) matches Some(
            Json::String(_),
        )) ==> required_capability(method, params) is None,
        ascii_lower(trimmed(method)) == "fs"@ && !(params.get("op"@) matches Some(Json::String(_)))
            ==> required_capability(method, params) is None,
{
    reveal_strlit("tool");
    reveal_strlit("fs");
    assert("tool"@.len() == 4 && "fs"@.len() == 2);
}

/// Seven methods need the capability of their own name, whatever their parameters are. There are no
/// other methods but those for tools and files. Case and outer white space do not matter.
pub proof fn law_methods_need(method: Seq<char>, params: Json)
    requires
        ascii_lower(trimmed(method)) != "tool"@,
        ascii_lower(trimmed(method)) != "fs"@,
    ensures
        ({
            let name = ascii_lower(trimmed(method));
            let known = name == "exec"@ || name == "env"@ || name == "http"@ || name == "session"@
                || name == "ui"@ || name == "events"@ || name == "log"@;
            &&& known ==> required_capability(method, params) == Some(name)
            &&& !known ==> required_capability(method, params) is None
        }),
{
}

/// A call is valid where it has an id, a method and a capability that are not blank, its parameters
/// are an object, and the capability is the one that it needs.
pub proof fn law_valid_calls(call: HostCallPayload)
    ensures
        valid_call(call) <==> {
            &&& exists|i: int| 0 <= i < call.call_id@.len() && !white_space(call.call_id@[i])
            &&& call.params is Object
            &&& exists|i: int| 0 <= i < call.capability@.len() && !white_space(call.capability@[i])
            &&& exists|i: int| 0 <= i < call.method@.len() && !white_space(call.method@[i])
            &&& required_capability(call.method@, call.params@) == Some(call.capability@)
        },
{
    law_blank_is_all_white_space(call.call_id@);
    law_blank_is_all_white_space(call.capability@);
    law_blank_is_all_white_space(call.method@);
}

/// What happens next to a call: one that is not valid is refused as such. Else the policy decides,
/// and where it leaves the call to the user, an answer that was given for this extension and this
/// capability; without one the user is asked, or the call is refused where nobody can be asked.
pub proof fn law_call_steps(
    policy: Policy,
    call: HostCallPayload,
    extension: Option<Seq<char>>,
    answers: Map<(Seq<char>, Seq<char>), bool>,
    reachable: bool,
)
    ensures
        ({
            let step = call_step(policy, call, extension, answers, reachable);
            let check = policy.check(call.capability@, extension);
            let answered = extension matches Some(id) && answers.dom().contains(
                (id, call.capability@),
            );
            let denied = HostCallErrorCode::Denied;
            &&& !valid_call(call) ==> step == Step::Refuse(
                HostCallErrorCode::InvalidRequest,
                "invalid_request"@,
            )
            &&& valid_call(call) && check.0 is Allow ==> step is Assess
            &&& valid_call(call) && check.0 is Deny ==> step == Step::Refuse(denied, check.1)
            &&& valid_call(call) && check.0 is Prompt ==> {
                &&& answered && answers[(extension->0, call.capability@)] ==> step is Assess
                &&& answered && !answers[(extension->0, call.capability@)] ==> step == Step::Refuse(
                    denied,
                    "prompt_cache_deny"@,
                )
                &&& !answered && reachable ==> step is Ask
                &&& !answered && !reachable ==> step == Step::Refuse(denied, "shutdown"@)
            }
        }),
{
}

/// The models of steps and capabilities leave out nothing.
pub proof fn law_call_models_keep_fields(step: HostCallStep, capability: &'static str)
    ensures
        step matches HostCallStep::Refuse(code, reason) ==> step@ == Step::Refuse(code, reason@),
        step is Ask <==> step@ is Ask,
        step is Assess <==> step@ is Assess,
        capability_view(Some(capability)) == Some(capability@),
        capability_view(None) is None,
{
}

} // verus!
