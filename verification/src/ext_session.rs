//! What extensions may read from the session, and how they may change it.
use vstd::prelude::*;
use vstd::string::*;

use crate::config::Config;
use crate::host_actions::{Error, Failure};
use crate::json::{members_view, Json, Number, Value};
use crate::members::{first_members, lemma_member_of_its_key};
use crate::messages::QueueMode;
use crate::session::{
    AutosaveMetrics, EntryBody, Session, SessionEntry, SessionHeader, SessionMessage,
};
use crate::text::{blank, copy_text, opt_chars, same_text, trim};
use crate::thinking::{
    law_clamp_is_idempotent, law_level_name_roundtrip, ModelEntry, ThinkingLevel,
};

verus! {

broadcast use vstd::string::group_string_axioms;

/// The session as extensions see it.
pub struct InteractiveExtensionSession {
    /// What is told of the model in use.
    pub model: Value,
    pub is_streaming: bool,
    pub is_compacting: bool,
    pub config: Config,
    /// Whether changes are saved at once.
    pub save_enabled: bool,
}

/// The error of a session that could not be locked.
pub fn lock_failed(reason: &str) -> (r: Error)
    ensures
        r@ == Failure::Session("session lock failed: "@ + reason@),
{
    let mut text: String = "session lock failed: ".to_owned();
    text.append(reason);
    Error::Session(text)
}

// ---------------------------------------------------------------------------------------------
// Reading
// ---------------------------------------------------------------------------------------------

/// Whether more mutations wait to be saved than the limit, where there is one, lets through.
pub open spec fn backpressure(metrics: AutosaveMetrics) -> bool {
    metrics.max_pending_mutations > 0 && metrics.pending_mutations >= metrics.max_pending_mutations
}

/// How the saving of the session stands. A failed save outweighs a full queue, and that outweighs
/// one that drains.
pub open spec fn persistence_status_of(metrics: AutosaveMetrics) -> Seq<char> {
    if metrics.flush_failed > 0 {
        "degraded"@
    } else if backpressure(metrics) {
        "backpressure"@
    } else if metrics.pending_mutations > 0 {
        "draining"@
    } else {
        "healthy"@
    }
}

/// How the saving of the session stands.
pub fn persistence_status(metrics: &AutosaveMetrics) -> (r: &'static str)
    ensures
        r@ == persistence_status_of(*metrics),
{
    if metrics.flush_failed > 0 {
        "degraded"
    } else if metrics.max_pending_mutations > 0 && metrics.pending_mutations
        >= metrics.max_pending_mutations {
        "backpressure"
    } else if metrics.pending_mutations > 0 {
        "draining"
    } else {
        "healthy"
    }
}

/// Whether an entry holds a message.
pub open spec fn is_message(entry: SessionEntry) -> bool {
    entry.body is Message
}

/// How many of a list of entries hold a message.
pub open spec fn message_count_of(entries: Seq<SessionEntry>) -> nat {
    entries.filter(|entry: SessionEntry| is_message(entry)).len()
}

/// Whether extensions see a message.
pub open spec fn visible(message: SessionMessage) -> bool {
    !(message is Internal)
}

/// The message of an entry that extensions see.
pub open spec fn visible_message(entry: SessionEntry) -> Option<SessionMessage> {
    match entry.body {
        EntryBody::Message(message) => if visible(message) {
            Some(message)
        } else {
            None
        },
        _ => None,
    }
}

/// The messages of a list of entries that extensions see, in their order.
pub open spec fn visible_messages(entries: Seq<SessionEntry>) -> Seq<SessionMessage>
    decreases entries.len(),
{
    if entries.len() == 0 {
        Seq::empty()
    } else {
        match visible_message(entries.last()) {
            Some(message) => visible_messages(entries.drop_last()).push(message),
            None => visible_messages(entries.drop_last()),
        }
    }
}

/// The messages of the current branch that extensions see, in their order; none where the session
/// cannot be locked.
pub fn get_messages(session: Option<&Session>) -> (r: Vec<&SessionMessage>)
    requires
        session matches Some(session) ==> session.wf(),
    ensures
        r@.map_values(|message: &SessionMessage| *message) == match session {
            Some(session) => visible_messages(session.branch_entries()),
            None => Seq::empty(),
        },
{
    let mut messages: Vec<&SessionMessage> = Vec::new();
    let session = match session {
        Some(session) => session,
        None => {
            assert(messages@.map_values(|message: &SessionMessage| *message) =~= Seq::empty());
            return messages;
        },
    };
    let ghost entries = session.branch_entries();
    let mut i: usize = 0;
    assert(entries.take(0) =~= Seq::<SessionEntry>::empty());
    while i < session.branch.len()
        invariant
            session.wf(),
            i <= session.branch@.len(),
            entries == session.branch_entries(),
            messages@.len() == visible_messages(entries.take(i as int)).len(),
            forall|k: int|
                0 <= k < messages@.len() ==> *(#[trigger] messages@[k]) == visible_messages(
                    entries.take(i as int),
                )[k],
        decreases session.branch@.len() - i,
    {
        let index: usize = session.branch[i];
        assert(session.branch@[i as int] < session.entries@.len());
        let entry = &session.entries[index];
        let ghost next = entries.take(i + 1);
        assert(next.drop_last() =~= entries.take(i as int));
        assert(next.last() == *entry);
        if let EntryBody::Message(message) = &entry.body {
            match message {
                SessionMessage::Internal(_) => {},
                _ => {
                    messages.push(message);
                },
            }
        }
        i = i + 1;
    }
    assert(entries.take(i as int) =~= entries);
    assert(messages@.map_values(|message: &SessionMessage| *message) =~= visible_messages(entries));
    messages
}

/// Every entry of the session, in the order in which they were appended; none where the session
/// cannot be locked.
pub fn get_entries(session: Option<&Session>) -> (r: Vec<&SessionEntry>)
    ensures
        r@.map_values(|entry: &SessionEntry| *entry) == match session {
            Some(session) => session.entries@,
            None => Seq::empty(),
        },
{
    let mut entries: Vec<&SessionEntry> = Vec::new();
    if let Some(session) = session {
        let mut i: usize = 0;
        while i < session.entries.len()
            invariant
                i <= session.entries@.len(),
                entries@.len() == i,
                forall|k: int| 0 <= k < i ==> *(#[trigger] entries@[k]) == session.entries@[k],
            decreases session.entries@.len() - i,
        {
            entries.push(&session.entries[i]);
            i = i + 1;
        }
        assert(entries@.map_values(|entry: &SessionEntry| *entry) =~= session.entries@);
    } else {
        assert(entries@.map_values(|entry: &SessionEntry| *entry) =~= Seq::empty());
    }
    entries
}

/// The entries of the current branch, from the root to the leaf; none where the session cannot be
/// locked.
pub fn get_branch(session: Option<&Session>) -> (r: Vec<&SessionEntry>)
    requires
        session matches Some(session) ==> session.wf(),
    ensures
        r@.map_values(|entry: &SessionEntry| *entry) == match session {
            Some(session) => session.branch_entries(),
            None => Seq::empty(),
        },
{
    let mut entries: Vec<&SessionEntry> = Vec::new();
    if let Some(session) = session {
        let mut i: usize = 0;
        while i < session.branch.len()
            invariant
                session.wf(),
                i <= session.branch@.len(),
                entries@.len() == i,
                forall|k: int|
                    0 <= k < i ==> *(#[trigger] entries@[k]) == session.branch_entries()[k],
            decreases session.branch@.len() - i,
        {
            let index: usize = session.branch[i];
            assert(session.branch@[i as int] < session.entries@.len());
            entries.push(&session.entries[index]);
            i = i + 1;
        }
        assert(entries@.map_values(|entry: &SessionEntry| *entry) =~= session.branch_entries());
    } else {
        assert(entries@.map_values(|entry: &SessionEntry| *entry) =~= Seq::empty());
    }
    entries
}

/// How many entries of the current branch hold a message.
pub fn message_count(session: &Session) -> (r: usize)
    requires
        session.wf(),
    ensures
        r == message_count_of(session.branch_entries()),
{
    let ghost entries = session.branch_entries();
    let ghost pred = |entry: SessionEntry| is_message(entry);
    let mut count: usize = 0;
    let mut i: usize = 0;
    reveal(Seq::filter);
    assert(entries.take(0) =~= Seq::<SessionEntry>::empty());
    while i < session.branch.len()
        invariant
            session.wf(),
            count <= i <= session.branch@.len(),
            entries == session.branch_entries(),
            pred == |entry: SessionEntry| is_message(entry),
            count == entries.take(i as int).filter(pred).len(),
        decreases session.branch@.len() - i,
    {
        let index: usize = session.branch[i];
        assert(session.branch@[i as int] < session.entries@.len());
        let entry = &session.entries[index];
        let ghost next = entries.take(i + 1);
        reveal(Seq::filter);
        assert(next.drop_last() =~= entries.take(i as int));
        assert(next.last() == *entry);
        if let EntryBody::Message(_) = &entry.body {
            count = count + 1;
        }
        i = i + 1;
    }
    assert(entries.take(i as int) =~= entries);
    count
}

/// The provider and the model that extensions are told.
pub open spec fn told_model(session: Option<&Session>) -> (Option<String>, Option<String>) {
    match session {
        Some(session) => (session.header.provider, session.header.model_id),
        None => (None, None),
    }
}

/// The provider and the model that the header names; neither where the session cannot be locked.
pub fn get_model(session: Option<&Session>) -> (r: (Option<String>, Option<String>))
    ensures
        r == told_model(session),
{
    match session {
        Some(session) => (
            copy_text(&session.header.provider),
            copy_text(&session.header.model_id),
        ),
        None => (None, None),
    }
}

/// The thinking level that extensions are told.
pub open spec fn told_thinking_level(session: Option<&Session>) -> Option<String> {
    match session {
        Some(session) => session.header.thinking_level,
        None => None,
    }
}

/// The thinking level that the header names; none where the session cannot be locked.
pub fn get_thinking_level(session: Option<&Session>) -> (r: Option<String>)
    ensures
        r == told_thinking_level(session),
{
    match session {
        Some(session) => copy_text(&session.header.thinking_level),
        None => None,
    }
}

/// What a session tells of itself, as far as its state is reported.
#[derive(Debug, PartialEq)]
pub struct SessionSummary {
    pub session_file: Option<String>,
    pub session_id: String,
    pub session_name: Option<String>,
    pub message_count: usize,
    pub thinking_level: String,
    pub durability_mode: String,
    pub pending_mutations: usize,
    pub max_pending_mutations: usize,
    pub flush_failed: u64,
    pub backpressure: bool,
    pub persistence_status: String,
}

/// The model of a summary.
pub struct Summary {
    pub session_file: Option<Seq<char>>,
    pub session_id: Seq<char>,
    pub session_name: Option<Seq<char>>,
    pub message_count: nat,
    pub thinking_level: Seq<char>,
    pub durability_mode: Seq<char>,
    pub pending_mutations: nat,
    pub max_pending_mutations: nat,
    pub flush_failed: nat,
    pub backpressure: bool,
    pub persistence_status: Seq<char>,
}

impl View for SessionSummary {
    type V = Summary;

    open spec fn view(&self) -> Summary {
        Summary {
            session_file: opt_chars(self.session_file),
            session_id: self.session_id@,
            session_name: opt_chars(self.session_name),
            message_count: self.message_count as nat,
            thinking_level: self.thinking_level@,
            durability_mode: self.durability_mode@,
            pending_mutations: self.pending_mutations as nat,
            max_pending_mutations: self.max_pending_mutations as nat,
            flush_failed: self.flush_failed as nat,
            backpressure: self.backpressure,
            persistence_status: self.persistence_status@,
        }
    }
}

/// What is told of a session, or of one that cannot be locked.
pub open spec fn summary_of(session: Option<&Session>) -> Summary {
    match session {
        Some(session) => Summary {
            session_file: opt_chars(session.path),
            session_id: session.header.id@,
            session_name: opt_chars(session.name),
            message_count: message_count_of(session.branch_entries()),
            thinking_level: match session.header.thinking_level {
                Some(level) => level@,
                None => "off"@,
            },
            durability_mode: session.durability_mode@,
            pending_mutations: session.autosave.pending_mutations as nat,
            max_pending_mutations: session.autosave.max_pending_mutations as nat,
            flush_failed: session.autosave.flush_failed as nat,
            backpressure: backpressure(session.autosave),
            persistence_status: persistence_status_of(session.autosave),
        },
        None => Summary {
            session_file: None,
            session_id: Seq::empty(),
            session_name: None,
            message_count: 0,
            thinking_level: "off"@,
            durability_mode: "balanced"@,
            pending_mutations: 0,
            max_pending_mutations: 0,
            flush_failed: 0,
            backpressure: false,
            persistence_status: "unknown"@,
        },
    }
}

/// Sums a session up, or one that cannot be locked.
pub fn summarize(session: Option<&Session>) -> (r: SessionSummary)
    requires
        session matches Some(session) ==> session.wf(),
    ensures
        r@ == summary_of(session),
{
    match session {
        Some(session) => SessionSummary {
            session_file: copy_text(&session.path),
            session_id: session.header.id.clone(),
            session_name: copy_text(&session.name),
            message_count: message_count(session),
            thinking_level: match &session.header.thinking_level {
                Some(level) => level.clone(),
                None => "off".to_owned(),
            },
            durability_mode: session.durability_mode.clone(),
            pending_mutations: session.autosave.pending_mutations,
            max_pending_mutations: session.autosave.max_pending_mutations,
            flush_failed: session.autosave.flush_failed,
            backpressure: session.autosave.max_pending_mutations > 0
                && session.autosave.pending_mutations >= session.autosave.max_pending_mutations,
            persistence_status: persistence_status(&session.autosave).to_owned(),
        },
        None => SessionSummary {
            session_file: None,
            session_id: String::new(),
            session_name: None,
            message_count: 0,
            thinking_level: "off".to_owned(),
            durability_mode: "balanced".to_owned(),
            pending_mutations: 0,
            max_pending_mutations: 0,
            flush_failed: 0,
            backpressure: false,
            persistence_status: "unknown".to_owned(),
        },
    }
}

/// A count as JSON.
pub open spec fn json_count(n: nat) -> Json {
    Json::Number(Number::PosInt(n as u64))
}

/// A text that may be absent as JSON.
pub open spec fn json_text(text: Option<Seq<char>>) -> Json {
    match text {
        Some(text) => Json::String(text),
        None => Json::Null,
    }
}

/// The members of the state that extensions are told.
pub open spec fn state_members(view: InteractiveExtensionSession, summary: Summary) -> Seq<
    (Seq<char>, Json),
> {
    seq![
        ("model"@, view.model@),
        ("thinkingLevel"@, Json::String(summary.thinking_level)),
        ("isStreaming"@, Json::Bool(view.is_streaming)),
        ("isCompacting"@, Json::Bool(view.is_compacting)),
        ("steeringMode"@, Json::String(view.config.steering().name())),
        ("followUpMode"@, Json::String(view.config.follow_up().name())),
        ("sessionFile"@, json_text(summary.session_file)),
        ("sessionId"@, Json::String(summary.session_id)),
        ("sessionName"@, json_text(summary.session_name)),
        ("autoCompactionEnabled"@, Json::Bool(view.config.compacts())),
        ("messageCount"@, json_count(summary.message_count)),
        ("pendingMessageCount"@, json_count(summary.pending_mutations)),
        ("durabilityMode"@, Json::String(summary.durability_mode)),
        ("autosavePendingMutations"@, json_count(summary.pending_mutations)),
        ("autosaveMaxPendingMutations"@, json_count(summary.max_pending_mutations)),
        ("autosaveFlushFailedCount"@, json_count(summary.flush_failed)),
        ("autosaveBackpressure"@, Json::Bool(summary.backpressure)),
        ("persistenceStatus"@, Json::String(summary.persistence_status)),
    ]
}

/// The state that extensions are told.
pub open spec fn state_of(view: InteractiveExtensionSession, session: Option<&Session>) -> Json {
    Json::Object(first_members(state_members(view, summary_of(session))))
}

/// A named text.
fn text_member(name: &str, text: String) -> (r: (String, Value))
    ensures
        r.0@ == name@,
        r.1@ == Json::String(text@),
{
    (name.to_owned(), Value::String(text))
}

/// A named text that may be absent.
fn opt_text_member(name: &str, text: Option<String>) -> (r: (String, Value))
    ensures
        r.0@ == name@,
        r.1@ == json_text(opt_chars(text)),
{
    match text {
        Some(text) => (name.to_owned(), Value::String(text)),
        None => (name.to_owned(), Value::Null),
    }
}

/// A named truth value.
fn bool_member(name: &str, value: bool) -> (r: (String, Value))
    ensures
        r.0@ == name@,
        r.1@ == Json::Bool(value),
{
    (name.to_owned(), Value::Bool(value))
}

/// A named count.
fn count_member(name: &str, n: u64) -> (r: (String, Value))
    ensures
        r.0@ == name@,
        r.1@ == json_count(n as nat),
{
    (name.to_owned(), Value::Number(Number::PosInt(n)))
}

impl InteractiveExtensionSession {
    /// The state that extensions are told, whether or not the session can be locked.
    pub fn get_state(&self, session: Option<&Session>) -> (r: Value)
        requires
            session matches Some(session) ==> session.wf(),
        ensures
            r@ == Json::Object(first_members(state_members(*self, summary_of(session)))),
            r@ == state_of(*self, session),
            r@.get("isStreaming"@) == Some(Json::Bool(self.is_streaming)),
            r@.get("isCompacting"@) == Some(Json::Bool(self.is_compacting)),
            r@.get("model"@) == Some(self.model@),
    {
        let summary: SessionSummary = summarize(session);
        let ghost told = summary@;
        let mut members: Vec<(String, Value)> = Vec::new();
        members.push(("model".to_owned(), self.model.clone()));
        members.push(text_member("thinkingLevel", summary.thinking_level));
        members.push(bool_member("isStreaming", self.is_streaming));
        members.push(bool_member("isCompacting", self.is_compacting));
        let steering: QueueMode = self.config.steering_queue_mode();
        members.push(text_member("steeringMode", steering.as_str().to_owned()));
        let follow_up: QueueMode = self.config.follow_up_queue_mode();
        members.push(text_member("followUpMode", follow_up.as_str().to_owned()));
        members.push(opt_text_member("sessionFile", summary.session_file));
        members.push(text_member("sessionId", summary.session_id));
        members.push(opt_text_member("sessionName", summary.session_name));
        members.push(bool_member("autoCompactionEnabled", self.config.compaction_enabled()));
        members.push(count_member("messageCount", summary.message_count as u64));
        members.push(count_member("pendingMessageCount", summary.pending_mutations as u64));
        members.push(text_member("durabilityMode", summary.durability_mode));
        members.push(count_member("autosavePendingMutations", summary.pending_mutations as u64));
        members.push(
            count_member("autosaveMaxPendingMutations", summary.max_pending_mutations as u64),
        );
        members.push(count_member("autosaveFlushFailedCount", summary.flush_failed));
        members.push(bool_member("autosaveBackpressure", summary.backpressure));
        members.push(text_member("persistenceStatus", summary.persistence_status));
        assert(members_view(members@) =~= state_members(*self, told));
        proof {
            law_state_tells_the_host(*self, session);
        }
        Value::Object(members)
    }
}

// ---------------------------------------------------------------------------------------------
// Writing
// ---------------------------------------------------------------------------------------------

/// Whether a text that may be absent is this one.
fn is_text(text: &Option<String>, other: &str) -> (r: bool)
    ensures
        r == (opt_chars(*text) == Some(other@)),
{
    match text {
        Some(text) => same_text(text.as_str(), other),
        None => false,
    }
}

/// Whether `after` is `before` with another name.
pub open spec fn name_set(before: Session, after: Session, name: String) -> bool {
    &&& after.name == Some(name)
    &&& after.keeps_entries(before)
    &&& after.header == before.header
}

/// Whether `after` is `before` with one more entry, which leaves the header as it was.
pub open spec fn entry_appended(
    before: Session,
    after: Session,
    id: String,
    body: EntryBody,
) -> bool {
    after.header == before.header && after.appends(before, SessionEntry { id, body })
}

/// Whether `after` is `before` with another model in use. The change is recorded where there is
/// one.
pub open spec fn model_set(
    before: Session,
    after: Session,
    id: String,
    provider: String,
    model_id: String,
) -> bool {
    &&& after.header == (SessionHeader {
        provider: Some(provider),
        model_id: Some(model_id),
        ..before.header
    })
    &&& after.name == before.name
    &&& if model_changes(before.header, provider@, model_id@) {
        after.appends(
            before,
            SessionEntry { id, body: EntryBody::ModelChange { provider, model_id } },
        )
    } else {
        after.keeps_entries(before)
    }
}

/// Whether a header names another model.
pub open spec fn model_changes(
    header: SessionHeader,
    provider: Seq<char>,
    model_id: Seq<char>,
) -> bool {
    opt_chars(header.provider) != Some(provider) || opt_chars(header.model_id) != Some(model_id)
}

/// The model, where it is known.
pub open spec fn known_model(model: Option<&ModelEntry>) -> Option<ModelEntry> {
    match model {
        Some(model) => Some(*model),
        None => None,
    }
}

/// The thinking level that is set where `level` is asked for: what the model takes instead, where
/// `level` is the name of a level and the model is known.
pub open spec fn effective_level(level: Seq<char>, model: Option<ModelEntry>) -> Seq<char> {
    match (ThinkingLevel::named(level), model) {
        (Some(named), Some(model)) => model.clamp(named).name(),
        _ => level,
    }
}

/// Whether `after` is `before` with the thinking level `level`. The change is recorded where there
/// is one.
pub open spec fn thinking_level_set(
    before: Session,
    after: Session,
    id: String,
    level: Seq<char>,
) -> bool {
    &&& opt_chars(after.header.thinking_level) == Some(level)
    &&& after.header == (SessionHeader {
        thinking_level: after.header.thinking_level,
        ..before.header
    })
    &&& after.name == before.name
    &&& if opt_chars(before.header.thinking_level) != Some(level) {
        after.appends(
            before,
            SessionEntry {
                id,
                body: EntryBody::ThinkingLevelChange {
                    thinking_level: after.header.thinking_level->0,
                },
            },
        )
    } else {
        after.keeps_entries(before)
    }
}

/// The thinking level that is set where `level` is asked for.
pub fn effective_thinking_level(level: String, model: Option<&ModelEntry>) -> (r: String)
    ensures
        r@ == effective_level(level@, known_model(model)),
{
    match ThinkingLevel::from_name(level.as_str()) {
        Some(named) => match model {
            Some(model) => model.clamp_thinking_level(named).as_str().to_owned(),
            None => level,
        },
        None => level,
    }
}

/// Refuses the type of a custom entry that is empty or blank.
pub fn check_custom_type(custom_type: &str) -> (r: Result<(), Error>)
    ensures
        match r {
            Ok(()) => !blank(custom_type@),
            Err(error) => blank(custom_type@) && error@ == Failure::Validation(
                "customType must not be empty"@,
            ),
        },
{
    if trim(custom_type).is_empty() {
        Err(Error::Validation("customType must not be empty".to_owned()))
    } else {
        Ok(())
    }
}

/// What is said of a label for an entry that does not exist.
pub open spec fn no_such_target(target_id: Seq<char>) -> Seq<char> {
    "target entry '"@ + target_id + "' not found in session"@
}

impl InteractiveExtensionSession {
    /// Names the session, without an entry of its own. Returns whether the session is to be saved.
    pub fn set_name(&self, session: &mut Session, name: String) -> (save: bool)
        ensures
            save == self.save_enabled,
            final(session).name == Some(name),
            final(session).keeps_entries(*old(session)),
            final(session).header == old(session).header,
            name_set(*old(session), *final(session), name),
    {
        session.name = Some(name);
        self.save_enabled
    }

    /// Appends a message as the entry `id`. Returns whether the session is to be saved.
    pub fn append_message(
        &self,
        session: &mut Session,
        id: String,
        message: SessionMessage,
    ) -> (save: bool)
        requires
            old(session).wf(),
        ensures
            save == self.save_enabled,
            final(session).wf(),
            final(session).header == old(session).header,
            final(session).appends(
                *old(session),
                SessionEntry { id, body: EntryBody::Message(message) },
            ),
            entry_appended(*old(session), *final(session), id, EntryBody::Message(message)),
    {
        session.append(id, EntryBody::Message(message));
        self.save_enabled
    }

    /// Appends an entry of an extension's own type as the entry `id`. Returns whether the session
    /// is to be saved.
    pub fn append_custom_entry(
        &self,
        session: &mut Session,
        id: String,
        custom_type: String,
        data: Option<Value>,
    ) -> (r: Result<bool, Error>)
        requires
            old(session).wf(),
        ensures
            final(session).wf(),
            match r {
                Ok(save) => {
                    &&& !blank(custom_type@)
                    &&& save == self.save_enabled
                    &&& final(session).header == old(session).header
                    &&& final(session).appends(
                        *old(session),
                        SessionEntry { id, body: EntryBody::Custom { custom_type, data } },
                    )
                    &&& entry_appended(
                        *old(session),
                        *final(session),
                        id,
                        EntryBody::Custom { custom_type, data },
                    )
                },
                Err(error) => {
                    &&& blank(custom_type@)
                    &&& error@ == Failure::Validation("customType must not be empty"@)
                    &&& *final(session) == *old(session)
                },
            },
    {
        match check_custom_type(custom_type.as_str()) {
            Ok(()) => {
                session.append(id, EntryBody::Custom { custom_type, data });
                Ok(self.save_enabled)
            },
            Err(error) => Err(error),
        }
    }

    /// Puts another model in use, recording the change, if there is one, as the entry `id`.
    /// Returns whether the session is to be saved.
    pub fn set_model(
        &self,
        session: &mut Session,
        id: String,
        provider: String,
        model_id: String,
    ) -> (save: bool)
        requires
            old(session).wf(),
        ensures
            save == self.save_enabled,
            final(session).wf(),
            model_set(*old(session), *final(session), id, provider, model_id),
    {
        let changed: bool = !is_text(&session.header.provider, provider.as_str()) || !is_text(
            &session.header.model_id,
            model_id.as_str(),
        );
        if changed {
            session.append(
                id,
                EntryBody::ModelChange { provider: provider.clone(), model_id: model_id.clone() },
            );
        }
        session.set_model_header(Some(provider), Some(model_id), None);
        self.save_enabled
    }

    /// Sets the thinking level, as far as the model takes it, recording the change, if there is
    /// one, as the entry `id`. Returns whether the session is to be saved.
    pub fn set_thinking_level(
        &self,
        session: &mut Session,
        id: String,
        level: String,
        model: Option<&ModelEntry>,
    ) -> (save: bool)
        requires
            old(session).wf(),
        ensures
            final(session).wf(),
            thinking_level_set(
                *old(session),
                *final(session),
                id,
                effective_level(level@, known_model(model)),
            ),
            save == (self.save_enabled && opt_chars(old(session).header.thinking_level) != Some(
                effective_level(level@, known_model(model)),
            )),
    {
        let effective: String = effective_thinking_level(level, model);
        let changed: bool = !is_text(&session.header.thinking_level, effective.as_str());
        session.set_model_header(None, None, Some(effective.clone()));
        if changed {
            session.append(id, EntryBody::ThinkingLevelChange { thinking_level: effective });
        }
        changed && self.save_enabled
    }

    /// Puts a label on an entry, or takes it off, recording that as the entry `id`. Returns
    /// whether the session is to be saved.
    pub fn set_label(
        &self,
        session: &mut Session,
        id: String,
        target_id: String,
        label: Option<String>,
    ) -> (r: Result<bool, Error>)
        requires
            old(session).wf(),
        ensures
            final(session).wf(),
            match r {
                Ok(save) => {
                    &&& old(session).has_entry(target_id@)
                    &&& save == self.save_enabled
                    &&& final(session).header == old(session).header
                    &&& final(session).appends(
                        *old(session),
                        SessionEntry { id, body: EntryBody::Label { target_id, label } },
                    )
                    &&& entry_appended(
                        *old(session),
                        *final(session),
                        id,
                        EntryBody::Label { target_id, label },
                    )
                },
                Err(error) => {
                    &&& !old(session).has_entry(target_id@)
                    &&& error@ == Failure::Validation(no_such_target(target_id@))
                    &&& *final(session) == *old(session)
                },
            },
    {
        if session.contains_entry(target_id.as_str()) {
            session.append(id, EntryBody::Label { target_id, label });
            Ok(self.save_enabled)
        } else {
            let mut text: String = "target entry '".to_owned();
            text.append(target_id.as_str());
            text.append("' not found in session");
            Err(Error::Validation(text))
        }
    }
}

// ---------------------------------------------------------------------------------------------
// Laws
// ---------------------------------------------------------------------------------------------

/// The model that was put in use is the one that is told, and the thinking level and the name stay
/// as they were.
pub proof fn law_model_is_read_back(
    before: Session,
    after: Session,
    id: String,
    provider: String,
    model_id: String,
)
    requires
        model_set(before, after, id, provider, model_id),
    ensures
        told_model(Some(&after)) == (Some(provider), Some(model_id)),
        told_thinking_level(Some(&after)) == told_thinking_level(Some(&before)),
        summary_of(Some(&after)).session_name == summary_of(Some(&before)).session_name,
        summary_of(Some(&after)).thinking_level == summary_of(Some(&before)).thinking_level,
{
}

/// The thinking level that was set is the one that is told, by itself and in the state, and the
/// model and the name stay as they were.
pub proof fn law_thinking_level_is_read_back(
    before: Session,
    after: Session,
    id: String,
    level: Seq<char>,
)
    requires
        thinking_level_set(before, after, id, level),
    ensures
        opt_chars(told_thinking_level(Some(&after))) == Some(level),
        summary_of(Some(&after)).thinking_level == level,
        told_model(Some(&after)) == told_model(Some(&before)),
        summary_of(Some(&after)).session_name == summary_of(Some(&before)).session_name,
{
}

/// Neither a change of the model nor one of the thinking level changes what messages extensions
/// see, or how many are counted.
pub proof fn law_settings_are_not_messages(before: Session, after: Session, entry: SessionEntry)
    requires
        before.wf(),
        before.entries@.len() <= usize::MAX,
        after.appends(before, entry),
        entry.body is ModelChange || entry.body is ThinkingLevelChange,
    ensures
        visible_messages(after.branch_entries()) == visible_messages(before.branch_entries()),
        message_count_of(after.branch_entries()) == message_count_of(before.branch_entries()),
{
    law_appended_message_is_seen(before, after, entry);
    law_appended_message_is_counted(before, after, entry);
}

/// An appended entry is counted where it holds a message, whether or not extensions see it.
pub proof fn law_appended_message_is_counted(before: Session, after: Session, entry: SessionEntry)
    requires
        before.wf(),
        before.entries@.len() <= usize::MAX,
        after.appends(before, entry),
    ensures
        message_count_of(after.branch_entries()) == message_count_of(before.branch_entries()) + (
        if is_message(entry) {
            1nat
        } else {
            0nat
        }),
{
    reveal(Seq::filter);
    law_append_keeps_earlier_entries(before, after, entry);
    assert(after.branch_entries().drop_last() =~= before.branch_entries());
}

/// Putting the model in use that already is records nothing.
pub proof fn law_same_model_is_not_recorded(
    before: Session,
    between: Session,
    after: Session,
    first_id: String,
    second_id: String,
    provider: String,
    model_id: String,
)
    requires
        model_set(before, between, first_id, provider, model_id),
        model_set(between, after, second_id, provider, model_id),
    ensures
        after.entries == between.entries,
        after.branch == between.branch,
        after.header == between.header,
        between.entries@.len() <= before.entries@.len() + 1,
{
}

/// Setting a thinking level that is already set records nothing.
pub proof fn law_same_thinking_level_is_not_recorded(
    before: Session,
    between: Session,
    after: Session,
    first_id: String,
    second_id: String,
    level: Seq<char>,
)
    requires
        thinking_level_set(before, between, first_id, level),
        thinking_level_set(between, after, second_id, level),
    ensures
        after.entries == between.entries,
        after.branch == between.branch,
        opt_chars(after.header.thinking_level) == Some(level),
        between.entries@.len() <= before.entries@.len() + 1,
{
}

/// A model that does not think turns every level into `off`.
pub proof fn law_model_without_thinking_is_off(level: Seq<char>, model: ModelEntry)
    requires
        !model.reasoning,
        ThinkingLevel::named(level) is Some,
    ensures
        effective_level(level, Some(model)) == "off"@,
{
}

/// Asking for the level that a model takes is asking for that level.
pub proof fn law_effective_level_is_stable(level: Seq<char>, model: Option<ModelEntry>)
    ensures
        effective_level(effective_level(level, model), model) == effective_level(level, model),
{
    match (ThinkingLevel::named(level), model) {
        (Some(named), Some(model)) => {
            law_level_name_roundtrip(model.clamp(named));
            law_clamp_is_idempotent(model, named);
        },
        _ => {},
    }
}

/// An appended entry leaves every earlier one where it was, and the current branch grows by it.
pub proof fn law_append_keeps_earlier_entries(before: Session, after: Session, entry: SessionEntry)
    requires
        before.wf(),
        before.entries@.len() <= usize::MAX,
        after.appends(before, entry),
    ensures
        before.entries@.is_prefix_of(after.entries@),
        after.branch_entries() == before.branch_entries().push(entry),
{
    assert forall|i: int| 0 <= i < before.branch@.len() implies after.entries@[after.branch@[i]
        as int] == before.entries@[#[trigger] before.branch@[i] as int] by {
        assert(before.branch@[i] < before.entries@.len());
    }
    assert(after.branch_entries() =~= before.branch_entries().push(entry));
}

/// A message that is appended is the last that extensions see, and they see all earlier ones as
/// before. Any other entry changes nothing of what they see.
pub proof fn law_appended_message_is_seen(before: Session, after: Session, entry: SessionEntry)
    requires
        before.wf(),
        before.entries@.len() <= usize::MAX,
        after.appends(before, entry),
    ensures
        visible_messages(after.branch_entries()) == match visible_message(entry) {
            Some(message) => visible_messages(before.branch_entries()).push(message),
            None => visible_messages(before.branch_entries()),
        },
{
    law_append_keeps_earlier_entries(before, after, entry);
    assert(after.branch_entries().drop_last() =~= before.branch_entries());
}

/// Extensions see no more messages than the state counts.
pub proof fn law_seen_messages_are_counted(entries: Seq<SessionEntry>)
    ensures
        visible_messages(entries).len() <= message_count_of(entries) <= entries.len(),
    decreases entries.len(),
{
    reveal(Seq::filter);
    if entries.len() > 0 {
        law_seen_messages_are_counted(entries.drop_last());
    }
}

/// The state tells backpressure exactly where the limit is reached, and its status says so unless
/// a save has failed.
pub proof fn law_status_agrees_with_backpressure(metrics: AutosaveMetrics)
    ensures
        persistence_status_of(metrics) == "backpressure"@ <==> backpressure(metrics)
            && metrics.flush_failed == 0,
        persistence_status_of(metrics) == "degraded"@ <==> metrics.flush_failed > 0,
        persistence_status_of(metrics) == "healthy"@ <==> metrics.flush_failed == 0
            && metrics.pending_mutations == 0,
{
    reveal_strlit("degraded");
    reveal_strlit("backpressure");
    reveal_strlit("draining");
    reveal_strlit("healthy");
    assert("degraded"@.len() == 8 && "draining"@.len() == 8);
    assert("backpressure"@.len() == 12 && "healthy"@.len() == 7);
    assert("degraded"@[1] != "draining"@[1]);
}

/// Every member of the state can be read under its name.
pub proof fn law_state_is_readable(view: InteractiveExtensionSession, summary: Summary, i: int)
    requires
        0 <= i < state_members(view, summary).len(),
    ensures
        Json::Object(first_members(state_members(view, summary))).get(
            state_members(view, summary)[i].0,
        ) == Some(state_members(view, summary)[i].1),
{
    let members = state_members(view, summary);
    reveal_strlit("model");
    reveal_strlit("thinkingLevel");
    reveal_strlit("isStreaming");
    reveal_strlit("isCompacting");
    reveal_strlit("steeringMode");
    reveal_strlit("followUpMode");
    reveal_strlit("sessionFile");
    reveal_strlit("sessionId");
    reveal_strlit("sessionName");
    reveal_strlit("autoCompactionEnabled");
    reveal_strlit("messageCount");
    reveal_strlit("pendingMessageCount");
    reveal_strlit("durabilityMode");
    reveal_strlit("autosavePendingMutations");
    reveal_strlit("autosaveMaxPendingMutations");
    reveal_strlit("autosaveFlushFailedCount");
    reveal_strlit("autosaveBackpressure");
    reveal_strlit("persistenceStatus");
    assert(members.len() == 18);
    assert("model"@.len() == 5);
    assert("thinkingLevel"@.len() == 13);
    assert("isStreaming"@.len() == 11);
    assert("isCompacting"@.len() == 12);
    assert("steeringMode"@.len() == 12);
    assert("followUpMode"@.len() == 12);
    assert("sessionFile"@.len() == 11);
    assert("sessionId"@.len() == 9);
    assert("sessionName"@.len() == 11);
    assert("autoCompactionEnabled"@.len() == 21);
    assert("messageCount"@.len() == 12);
    assert("pendingMessageCount"@.len() == 19);
    assert("durabilityMode"@.len() == 14);
    assert("autosavePendingMutations"@.len() == 24);
    assert("autosaveMaxPendingMutations"@.len() == 27);
    assert("autosaveFlushFailedCount"@.len() == 24);
    assert("autosaveBackpressure"@.len() == 20);
    assert("persistenceStatus"@.len() == 17);
    assert("sessionFile"@[7] != "sessionName"@[7]);
    assert("isStreaming"@[0] != "sessionFile"@[0]);
    assert("isCompacting"@[0] == 'i' && "steeringMode"@[0] == 's');
    assert("followUpMode"@[0] == 'f' && "messageCount"@[0] == 'm');
    assert("autosavePendingMutations"@[8] != "autosaveFlushFailedCount"@[8]);
    assert forall|k: int| 0 <= k < i implies #[trigger] members[k].0 != members[i].0 by {
        assert("isStreaming"@[0] == 'i' && "sessionName"@[0] == 's');
    }
    lemma_member_of_its_key(members, i);
}

// ---------------------------------------------------------------------------------------------
// Laws on what the session holds
// ---------------------------------------------------------------------------------------------

/// Extensions see the messages of users, assistants, tools, commands and extensions, in the order
/// of the branch, and nothing else: an entry behind others adds its message where it holds one of
/// these, and without entries there is none.
pub proof fn law_extensions_see_these_messages(entries: Seq<SessionEntry>, entry: SessionEntry)
    ensures
        visible_messages(Seq::empty()) == Seq::<SessionMessage>::empty(),
        entry.body matches EntryBody::Message(message) && (message is User || message is Assistant
            || message is ToolResult || message is BashExecution || message is Custom)
            ==> visible_messages(entries.push(entry)) == visible_messages(entries).push(
            entry.body->Message_0,
        ),
        !(entry.body is Message) ==> visible_messages(entries.push(entry)) == visible_messages(
            entries,
        ),
        (entry.body matches EntryBody::Message(SessionMessage::Internal(_))) ==> visible_messages(
            entries.push(entry),
        ) == visible_messages(entries),
{
    assert(entries.push(entry).drop_last() =~= entries);
}

/// Every entry that holds a message is counted, whichever message it is, and no other.
pub proof fn law_these_entries_are_counted(entries: Seq<SessionEntry>, entry: SessionEntry)
    ensures
        message_count_of(Seq::empty()) == 0,
        entry.body is Message ==> message_count_of(entries.push(entry)) == message_count_of(entries)
            + 1,
        !(entry.body is Message) ==> message_count_of(entries.push(entry)) == message_count_of(
            entries,
        ),
{
    reveal(Seq::filter);
    assert(entries.push(entry).drop_last() =~= entries);
}

/// What is told of a session is what its header names, and nothing of one that cannot be locked.
pub proof fn law_header_is_told(session: Session)
    ensures
        told_model(Some(&session)).0 == session.header.provider,
        told_model(Some(&session)).1 == session.header.model_id,
        told_model(None) == (None::<String>, None::<String>),
        told_thinking_level(Some(&session)) == session.header.thinking_level,
        told_thinking_level(None) is None,
{
}

/// What the state tells under each name that does not depend on the session: the model, what the
/// agent is doing, and the settings.
pub proof fn law_state_tells_the_host(
    view: InteractiveExtensionSession,
    session: Option<&Session>,
)
    ensures
        ({
            let state = state_of(view, session);
            &&& state.get("model"@) == Some(view.model@)
            &&& state.get("isStreaming"@) == Some(Json::Bool(view.is_streaming))
            &&& state.get("isCompacting"@) == Some(Json::Bool(view.is_compacting))
            &&& state.get("steeringMode"@) == Some(
                Json::String(
                    if opt_chars(view.config.steering_mode) == Some("all"@) {
                        "all"@
                    } else {
                        "one-at-a-time"@
                    },
                ),
            )
            &&& state.get("followUpMode"@) == Some(
                Json::String(
                    if opt_chars(view.config.follow_up_mode) == Some("all"@) {
                        "all"@
                    } else {
                        "one-at-a-time"@
                    },
                ),
            )
            &&& state.get("autoCompactionEnabled"@) == Some(
                Json::Bool(
                    match view.config.compaction_enabled {
                        Some(enabled) => enabled,
                        None => true,
                    },
                ),
            )
        }),
{
    let summary = summary_of(session);
    law_state_is_readable(view, summary, 0);
    law_state_is_readable(view, summary, 2);
    law_state_is_readable(view, summary, 3);
    law_state_is_readable(view, summary, 4);
    law_state_is_readable(view, summary, 5);
    law_state_is_readable(view, summary, 9);
    crate::config::law_settings(view.config);
}

/// What the state tells under each name of a session that can be locked.
pub proof fn law_state_tells_the_session(view: InteractiveExtensionSession, session: Session)
    ensures
        ({
            let state = state_of(view, Some(&session));
            let autosave = session.autosave;
            let pending = Json::Number(Number::PosInt(autosave.pending_mutations as u64));
            let full = autosave.max_pending_mutations != 0 && autosave.pending_mutations
                >= autosave.max_pending_mutations;
            &&& state.get("thinkingLevel"@) == Some(
                match session.header.thinking_level {
                    Some(level) => Json::String(level@),
                    None => Json::String("off"@),
                },
            )
            &&& state.get("sessionFile"@) == Some(
                match session.path {
                    Some(path) => Json::String(path@),
                    None => Json::Null,
                },
            )
            &&& state.get("sessionId"@) == Some(Json::String(session.header.id@))
            &&& state.get("sessionName"@) == Some(
                match session.name {
                    Some(name) => Json::String(name@),
                    None => Json::Null,
                },
            )
            &&& state.get("messageCount"@) == Some(
                Json::Number(Number::PosInt(message_count_of(session.branch_entries()) as u64)),
            )
            &&& state.get("pendingMessageCount"@) == Some(pending)
            &&& state.get("autosavePendingMutations"@) == Some(pending)
            &&& state.get("durabilityMode"@) == Some(Json::String(session.durability_mode@))
            &&& state.get("autosaveMaxPendingMutations"@) == Some(
                Json::Number(Number::PosInt(autosave.max_pending_mutations as u64)),
            )
            &&& state.get("autosaveFlushFailedCount"@) == Some(
                Json::Number(Number::PosInt(autosave.flush_failed)),
            )
            &&& state.get("autosaveBackpressure"@) == Some(Json::Bool(full))
            &&& autosave.flush_failed != 0 ==> state.get("persistenceStatus"@) == Some(
                Json::String("degraded"@),
            )
            &&& autosave.flush_failed == 0 && full ==> state.get("persistenceStatus"@) == Some(
                Json::String("backpressure"@),
            )
            &&& autosave.flush_failed == 0 && !full && autosave.pending_mutations != 0
                ==> state.get("persistenceStatus"@) == Some(Json::String("draining"@))
            &&& autosave.flush_failed == 0 && !full && autosave.pending_mutations == 0
                ==> state.get("persistenceStatus"@) == Some(Json::String("healthy"@))
        }),
{
    let summary = summary_of(Some(&session));
    law_state_is_readable(view, summary, 1);
    law_state_is_readable(view, summary, 6);
    law_state_is_readable(view, summary, 7);
    law_state_is_readable(view, summary, 8);
    law_state_is_readable(view, summary, 10);
    law_state_is_readable(view, summary, 11);
    law_state_is_readable(view, summary, 12);
    law_state_is_readable(view, summary, 13);
    law_state_is_readable(view, summary, 14);
    law_state_is_readable(view, summary, 15);
    law_state_is_readable(view, summary, 16);
    law_state_is_readable(view, summary, 17);
}

/// What the state tells where the session cannot be locked.
pub proof fn law_state_without_the_session(view: InteractiveExtensionSession)
    ensures
        ({
            let state = state_of(view, None);
            let zero = Json::Number(Number::PosInt(0));
            &&& state.get("thinkingLevel"@) == Some(Json::String("off"@))
            &&& state.get("sessionFile"@) == Some(Json::Null)
            &&& state.get("sessionId"@) == Some(Json::String(Seq::empty()))
            &&& state.get("sessionName"@) == Some(Json::Null)
            &&& state.get("messageCount"@) == Some(zero)
            &&& state.get("pendingMessageCount"@) == Some(zero)
            &&& state.get("durabilityMode"@) == Some(Json::String("balanced"@))
            &&& state.get("autosavePendingMutations"@) == Some(zero)
            &&& state.get("autosaveMaxPendingMutations"@) == Some(zero)
            &&& state.get("autosaveFlushFailedCount"@) == Some(zero)
            &&& state.get("autosaveBackpressure"@) == Some(Json::Bool(false))
            &&& state.get("persistenceStatus"@) == Some(Json::String("unknown"@))
        }),
{
    let summary = summary_of(None);
    law_state_is_readable(view, summary, 1);
    law_state_is_readable(view, summary, 6);
    law_state_is_readable(view, summary, 7);
    law_state_is_readable(view, summary, 8);
    law_state_is_readable(view, summary, 10);
    law_state_is_readable(view, summary, 11);
    law_state_is_readable(view, summary, 12);
    law_state_is_readable(view, summary, 13);
    law_state_is_readable(view, summary, 14);
    law_state_is_readable(view, summary, 15);
    law_state_is_readable(view, summary, 16);
    law_state_is_readable(view, summary, 17);
}

/// The status of the saving: a save that failed makes it degraded, else a limit that is reached
/// backpressure, else a mutation that waits draining, and else it is healthy.
pub proof fn law_persistence_status(metrics: AutosaveMetrics)
    ensures
        ({
            let full = metrics.max_pending_mutations != 0 && metrics.pending_mutations
                >= metrics.max_pending_mutations;
            &&& backpressure(metrics) == full
            &&& metrics.flush_failed != 0 ==> persistence_status_of(metrics) == "degraded"@
            &&& metrics.flush_failed == 0 && full ==> persistence_status_of(metrics)
                == "backpressure"@
            &&& metrics.flush_failed == 0 && !full && metrics.pending_mutations != 0
                ==> persistence_status_of(metrics) == "draining"@
            &&& metrics.flush_failed == 0 && !full && metrics.pending_mutations == 0
                ==> persistence_status_of(metrics) == "healthy"@
        }),
{
}

/// A model that the header does not name is put there and recorded in one entry behind all others;
/// one that it names already is not recorded. Nothing else changes.
pub proof fn law_model_change_is_recorded(
    before: Session,
    after: Session,
    id: String,
    provider: String,
    model_id: String,
)
    requires
        model_set(before, after, id, provider, model_id),
    ensures
        ({
            let same = before.header.provider matches Some(old_provider) && old_provider@
                == provider@ && (before.header.model_id matches Some(old_model) && old_model@
                == model_id@);
            &&& same ==> after.entries@ == before.entries@ && after.branch@ == before.branch@
            &&& !same ==> after.entries@ == before.entries@.push(
                SessionEntry { id, body: EntryBody::ModelChange { provider, model_id } },
            ) && after.branch@ == before.branch@.push(before.entries@.len() as usize)
        }),
        after.header.provider == Some(provider),
        after.header.model_id == Some(model_id),
        after.header.id == before.header.id,
        after.header.thinking_level == before.header.thinking_level,
        after.name == before.name,
        after.path == before.path,
        after.autosave == before.autosave,
        after.durability_mode == before.durability_mode,
{
}

/// A thinking level that the header does not name is put there and recorded in one entry behind
/// all others; one that it names already is not recorded. Nothing else changes.
pub proof fn law_thinking_level_change_is_recorded(
    before: Session,
    after: Session,
    id: String,
    level: Seq<char>,
)
    requires
        thinking_level_set(before, after, id, level),
    ensures
        after.header.thinking_level matches Some(set) && set@ == level && {
            let same = before.header.thinking_level matches Some(old_level) && old_level@ == level;
            &&& same ==> after.entries@ == before.entries@ && after.branch@ == before.branch@
            &&& !same ==> after.entries@ == before.entries@.push(
                SessionEntry { id, body: EntryBody::ThinkingLevelChange { thinking_level: set } },
            ) && after.branch@ == before.branch@.push(before.entries@.len() as usize)
        },
        after.header.provider == before.header.provider,
        after.header.model_id == before.header.model_id,
        after.header.id == before.header.id,
        after.name == before.name,
        after.path == before.path,
        after.autosave == before.autosave,
        after.durability_mode == before.durability_mode,
{
}

/// The level that is set where one is asked for by its name: none for a model that does not think;
/// the level itself up to the model's highest, and the highest above that; and what was asked for
/// where the model is not known.
pub proof fn law_level_for_a_model(level: ThinkingLevel, model: ModelEntry)
    ensures
        !model.reasoning ==> effective_level(level.name(), Some(model)) == "off"@,
        model.reasoning && level.rank() <= model.highest_level.rank() ==> effective_level(
            level.name(),
            Some(model),
        ) == level.name(),
        model.reasoning && level.rank() > model.highest_level.rank() ==> effective_level(
            level.name(),
            Some(model),
        ) == model.highest_level.name(),
        effective_level(level.name(), None) == level.name(),
{
    law_level_name_roundtrip(level);
}

/// What is not the name of a level is set as it is.
pub proof fn law_unknown_level_is_kept(level: Seq<char>, model: Option<ModelEntry>)
    requires
        level != "off"@ && level != "minimal"@ && level != "low"@ && level != "medium"@ && level
            != "high"@ && level != "xhigh"@,
    ensures
        effective_level(level, model) == level,
{
}

/// The model counts as known where there is one.
pub proof fn law_known_model(model: ModelEntry)
    ensures
        known_model(Some(&model)) == Some(model),
        known_model(None) is None,
{
}

/// The complaint about a label for an entry that does not exist names the entry.
pub proof fn law_missing_target_is_named(target_id: Seq<char>)
    ensures
        no_such_target(target_id) == "target entry '"@ + target_id + "' not found in session"@,
{
}

/// The model of a summary leaves out nothing.
pub proof fn law_summary_model_keeps_fields(summary: SessionSummary)
    ensures
        summary@.session_file == opt_chars(summary.session_file),
        summary@.session_id == summary.session_id@,
        summary@.session_name == opt_chars(summary.session_name),
        summary@.message_count == summary.message_count,
        summary@.thinking_level == summary.thinking_level@,
        summary@.durability_mode == summary.durability_mode@,
        summary@.pending_mutations == summary.pending_mutations,
        summary@.max_pending_mutations == summary.max_pending_mutations,
        summary@.flush_failed == summary.flush_failed,
        summary@.backpressure == summary.backpressure,
        summary@.persistence_status == summary.persistence_status@,
{
}

/// What a session is summed up to.
pub proof fn law_summary_tells_the_session(session: Session)
    ensures
        ({
            let summary = summary_of(Some(&session));
            &&& summary.session_file == opt_chars(session.path)
            &&& summary.session_id == session.header.id@
            &&& summary.session_name == opt_chars(session.name)
            &&& summary.message_count == message_count_of(session.branch_entries())
            &&& session.header.thinking_level matches Some(level) ==> summary.thinking_level
                == level@
            &&& session.header.thinking_level is None ==> summary.thinking_level == "off"@
            &&& summary.durability_mode == session.durability_mode@
            &&& summary.pending_mutations == session.autosave.pending_mutations
            &&& summary.max_pending_mutations == session.autosave.max_pending_mutations
            &&& summary.flush_failed == session.autosave.flush_failed
        }),
{
}

/// The name that was given is the one that is told, and neither the entries nor the header change.
pub proof fn law_name_is_read_back(before: Session, after: Session, name: String)
    requires
        name_set(before, after, name),
    ensures
        after.name == Some(name),
        summary_of(Some(&after)).session_name == Some(name@),
        after.entries@ == before.entries@,
        after.branch@ == before.branch@,
        told_model(Some(&after)) == told_model(Some(&before)),
        told_thinking_level(Some(&after)) == told_thinking_level(Some(&before)),
        after.header == before.header,
        after.path == before.path,
        after.autosave == before.autosave,
        after.durability_mode == before.durability_mode,
{
}

/// What an extension appends is the last entry, as it was given, behind all that were there; the
/// header, and so the model and the thinking level, stay as they were.
pub proof fn law_appended_is_last(
    before: Session,
    after: Session,
    id: String,
    body: EntryBody,
)
    requires
        entry_appended(before, after, id, body),
    ensures
        after.entries@.len() == before.entries@.len() + 1,
        before.entries@.is_prefix_of(after.entries@),
        after.entries@.last().id == id,
        after.entries@.last().body == body,
        after.header == before.header,
        after.name == before.name,
        told_model(Some(&after)) == told_model(Some(&before)),
        told_thinking_level(Some(&after)) == told_thinking_level(Some(&before)),
{
}

} // verus!
