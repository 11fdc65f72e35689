//! The session: its entries, the branch of them that is current, and what its header says.
use vstd::prelude::*;

use crate::json::Value;
use crate::messages::CustomMessage;
use crate::text::same_text;

verus! {

broadcast use vstd::string::group_string_axioms;

/// A message in the session. The bodies that only extensions look into are kept as JSON.
#[derive(Debug, PartialEq)]
pub enum SessionMessage {
    User(Value),
    Assistant(Value),
    ToolResult(Value),
    BashExecution(Value),
    Custom {
        custom_type: String,
        content: String,
        display: bool,
        details: Option<Value>,
        timestamp: Option<i64>,
    },
    /// A message that the program keeps for itself.
    Internal(Value),
}

/// What an entry of the session records.
#[derive(Debug, PartialEq)]
pub enum EntryBody {
    Message(SessionMessage),
    ModelChange { provider: String, model_id: String },
    ThinkingLevelChange { thinking_level: String },
    Custom { custom_type: String, data: Option<Value> },
    /// Puts a label on the entry `target_id`, or takes it off.
    Label { target_id: String, label: Option<String> },
    /// A record that the program keeps for itself.
    Internal(Value),
}

/// An entry of the session.
#[derive(Debug, PartialEq)]
pub struct SessionEntry {
    pub id: String,
    pub body: EntryBody,
}

/// What the session says of itself.
#[derive(Debug, PartialEq)]
pub struct SessionHeader {
    pub id: String,
    pub provider: Option<String>,
    pub model_id: Option<String>,
    pub thinking_level: Option<String>,
}

/// How the autosave of the session keeps up, as the host last reported it. Changes to the session
/// do not count themselves here.
#[derive(Clone, Copy, Debug, PartialEq, Eq, Structural)]
pub struct AutosaveMetrics {
    pub pending_mutations: usize,
    /// The most mutations that may be pending; zero where there is no limit.
    pub max_pending_mutations: usize,
    pub flush_failed: u64,
}

/// A session.
#[derive(Debug, PartialEq)]
pub struct Session {
    pub header: SessionHeader,
    pub name: Option<String>,
    /// The file that the session is saved in, where it has one.
    pub path: Option<String>,
    /// Every entry, in the order in which they were appended.
    pub entries: Vec<SessionEntry>,
    /// The indices of the entries from the root to the current leaf.
    pub branch: Vec<usize>,
    pub autosave: AutosaveMetrics,
    pub durability_mode: String,
}

/// Whether `branch` names entries of a session with `n` entries, each appended after the one
/// before it.
pub open spec fn branch_of(branch: Seq<usize>, n: nat) -> bool {
    &&& forall|i: int| 0 <= i < branch.len() ==> #[trigger] branch[i] < n
    &&& forall|i: int, j: int|
        0 <= i < j < branch.len() ==> #[trigger] branch[i] < #[trigger] branch[j]
}

/// Whether `after` is `before` with a message of an extension appended.
pub open spec fn extension_message_appended(
    before: Session,
    after: Session,
    id: String,
    message: CustomMessage,
) -> bool {
    &&& after.header == before.header
    &&& after.appends(
        before,
        SessionEntry {
            id,
            body: EntryBody::Message(
                SessionMessage::Custom {
                    custom_type: message.custom_type,
                    content: message.content,
                    display: message.display,
                    details: message.details,
                    timestamp: Some(message.timestamp),
                },
            ),
        },
    )
}

impl Session {
    /// The current branch is a branch of the entries.
    pub open spec fn wf(self) -> bool {
        branch_of(self.branch@, self.entries@.len())
    }

    /// The entries from the root to the current leaf.
    pub open spec fn branch_entries(self) -> Seq<SessionEntry> {
        Seq::new(self.branch@.len(), |i: int| self.entries@[self.branch@[i] as int])
    }

    /// Whether some entry has the id `id`.
    pub open spec fn has_entry(self, id: Seq<char>) -> bool {
        exists|i: int| 0 <= i < self.entries@.len() && (#[trigger] self.entries@[i]).id@ == id
    }

    /// Whether `self` is `before` with one more entry, which is the leaf of the branch.
    pub open spec fn appends(self, before: Session, entry: SessionEntry) -> bool {
        &&& self.entries@ == before.entries@.push(entry)
        &&& self.branch@ == before.branch@.push(before.entries@.len() as usize)
        &&& self.name == before.name
        &&& self.path == before.path
        &&& self.autosave == before.autosave
        &&& self.durability_mode == before.durability_mode
    }

    /// Whether `self` has the entries of `before`.
    pub open spec fn keeps_entries(self, before: Session) -> bool {
        &&& self.entries == before.entries
        &&& self.branch == before.branch
        &&& self.path == before.path
        &&& self.autosave == before.autosave
        &&& self.durability_mode == before.durability_mode
    }

    /// An empty session that is saved nowhere.
    pub fn in_memory(id: &str) -> (r: Session)
        ensures
            r.wf(),
            r.entries@.len() == 0,
            r.branch@.len() == 0,
            r.name is None,
            r.path is None,
            r.header.id@ == id@,
            r.header.provider is None,
            r.header.model_id is None,
            r.header.thinking_level is None,
            r.autosave == (AutosaveMetrics {
                pending_mutations: 0,
                max_pending_mutations: 0,
                flush_failed: 0,
            }),
            r.durability_mode@ == "balanced"@,
    {
        Session {
            header: SessionHeader {
                id: id.to_owned(),
                provider: None,
                model_id: None,
                thinking_level: None,
            },
            name: None,
            path: None,
            entries: Vec::new(),
            branch: Vec::new(),
            autosave: AutosaveMetrics {
                pending_mutations: 0,
                max_pending_mutations: 0,
                flush_failed: 0,
            },
            durability_mode: "balanced".to_owned(),
        }
    }

    /// Whether the current branch is a branch of the entries.
    pub fn is_well_formed(&self) -> (r: bool)
        ensures
            r == self.wf(),
    {
        let n: usize = self.entries.len();
        let mut i: usize = 0;
        while i < self.branch.len()
            invariant
                i <= self.branch@.len(),
                n == self.entries@.len(),
                branch_of(self.branch@.take(i as int), n as nat),
            decreases self.branch@.len() - i,
        {
            let ghost seen = self.branch@.take(i as int);
            let ghost next = self.branch@.take(i + 1);
            if self.branch[i] >= n {
                assert(self.branch@[i as int] >= n);
                return false;
            }
            if i > 0 && self.branch[i - 1] >= self.branch[i] {
                assert(self.branch@[i - 1] >= self.branch@[i as int]);
                return false;
            }
            proof {
                assert forall|k: int, j: int| 0 <= k < j < next.len() implies #[trigger] next[k]
                    < #[trigger] next[j] by {
                    if j < i {
                        assert(seen[k] < seen[j]);
                    } else if k < i - 1 {
                        assert(seen[k] < seen[i - 1]);
                    }
                }
                assert forall|k: int| 0 <= k < next.len() implies #[trigger] next[k] < n by {
                    if k < i {
                        assert(seen[k] < n);
                    }
                }
            }
            i = i + 1;
        }
        assert(self.branch@.take(i as int) =~= self.branch@);
        true
    }

    /// Appends an entry, which becomes the leaf of the branch.
    pub fn append(&mut self, id: String, body: EntryBody)
        requires
            old(self).wf(),
        ensures
            final(self).wf(),
            final(self).appends(*old(self), SessionEntry { id, body }),
            final(self).header == old(self).header,
            final(self).branch_entries() == old(self).branch_entries().push(
                SessionEntry { id, body },
            ),
    {
        let leaf: usize = self.entries.len();
        self.entries.push(SessionEntry { id, body });
        self.branch.push(leaf);
        proof {
            let before = old(self).branch@;
            let after = self.branch@;
            assert forall|i: int| 0 <= i < after.len() implies #[trigger] after[i]
                < self.entries@.len() by {
                if i < before.len() {
                    assert(before[i] < leaf);
                }
            }
            assert forall|i: int, j: int| 0 <= i < j < after.len() implies #[trigger] after[i]
                < #[trigger] after[j] by {
                assert(before[i] < leaf);
                if j < before.len() {
                    assert(before[i] < before[j]);
                }
            }
            assert forall|i: int| 0 <= i < before.len() implies self.entries@[after[i] as int]
                == old(self).entries@[#[trigger] before[i] as int] by {
                assert(before[i] < leaf);
            }
            assert(self.branch_entries() =~= old(self).branch_entries().push(
                SessionEntry { id, body },
            ));
        }
    }

    /// Appends a message of an extension.
    pub fn append_model_message(&mut self, id: String, message: CustomMessage)
        requires
            old(self).wf(),
        ensures
            final(self).wf(),
            final(self).appends(
                *old(self),
                SessionEntry {
                    id,
                    body: EntryBody::Message(
                        SessionMessage::Custom {
                            custom_type: message.custom_type,
                            content: message.content,
                            display: message.display,
                            details: message.details,
                            timestamp: Some(message.timestamp),
                        },
                    ),
                },
            ),
            final(self).header == old(self).header,
            extension_message_appended(*old(self), *final(self), id, message),
    {
        self.append(
            id,
            EntryBody::Message(
                SessionMessage::Custom {
                    custom_type: message.custom_type,
                    content: message.content,
                    display: message.display,
                    details: message.details,
                    timestamp: Some(message.timestamp),
                },
            ),
        );
    }

    /// Whether some entry has the id `id`.
    pub fn contains_entry(&self, id: &str) -> (r: bool)
        ensures
            r == self.has_entry(id@),
    {
        let mut i: usize = 0;
        while i < self.entries.len()
            invariant
                i <= self.entries@.len(),
                forall|k: int| 0 <= k < i ==> (#[trigger] self.entries@[k]).id@ != id@,
            decreases self.entries@.len() - i,
        {
            if same_text(self.entries[i].id.as_str(), id) {
                assert(self.entries@[i as int].id@ == id@);
                return true;
            }
            i = i + 1;
        }
        false
    }

    /// Sets those of the three header fields that are given.
    pub fn set_model_header(
        &mut self,
        provider: Option<String>,
        model_id: Option<String>,
        thinking_level: Option<String>,
    )
        ensures
            final(self).keeps_entries(*old(self)),
            final(self).name == old(self).name,
            final(self).header == (SessionHeader {
                id: old(self).header.id,
                provider: if provider is Some {
                    provider
                } else {
                    old(self).header.provider
                },
                model_id: if model_id is Some {
                    model_id
                } else {
                    old(self).header.model_id
                },
                thinking_level: if thinking_level is Some {
                    thinking_level
                } else {
                    old(self).header.thinking_level
                },
            }),
    {
        if provider.is_some() {
            self.header.provider = provider;
        }
        if model_id.is_some() {
            self.header.model_id = model_id;
        }
        if thinking_level.is_some() {
            self.header.thinking_level = thinking_level;
        }
    }
}

/// In a well-formed session every index of the branch is one of an entry, each behind the one
/// before it, and the branch has the entries at those indices.
pub proof fn law_branch_indexes_entries(session: Session, i: int)
    requires
        session.wf(),
        0 <= i < session.branch@.len(),
    ensures
        session.branch@[i] < session.entries@.len(),
        i > 0 ==> session.branch@[i - 1] < session.branch@[i],
        session.branch_entries().len() == session.branch@.len(),
        session.branch_entries()[i] == session.entries@[session.branch@[i] as int],
{
}

/// A session whose branch indexes entries, each behind the one before it, is well-formed.
pub proof fn law_well_formed_sessions(session: Session)
    requires
        forall|i: int|
            0 <= i < session.branch@.len() ==> #[trigger] session.branch@[i]
                < session.entries@.len(),
        forall|i: int, j: int|
            0 <= i < j < session.branch@.len() ==> #[trigger] session.branch@[i]
                < #[trigger] session.branch@[j],
    ensures
        session.wf(),
{
}

/// A session has the ids of its entries and no others.
pub proof fn law_entry_ids(session: Session, id: Seq<char>)
    ensures
        session.has_entry(id) <==> session.entries@.map_values(
            |entry: SessionEntry| entry.id@,
        ).contains(id),
{
    let ids = session.entries@.map_values(|entry: SessionEntry| entry.id@);
    if session.has_entry(id) {
        let i = choose|i: int|
            0 <= i < session.entries@.len() && (#[trigger] session.entries@[i]).id@ == id;
        assert(ids[i] == id);
    }
    if ids.contains(id) {
        let i = choose|i: int| 0 <= i < ids.len() && ids[i] == id;
        assert(session.entries@[i].id@ == id);
    }
}

/// Appending puts the entry behind all others and at the end of the branch, and changes neither
/// the others nor the name, the file, the autosave or the durability.
pub proof fn law_append_changes_nothing_else(
    before: Session,
    after: Session,
    entry: SessionEntry,
    i: int,
)
    requires
        after.appends(before, entry),
        before.entries@.len() <= usize::MAX,
    ensures
        after.entries@.len() == before.entries@.len() + 1,
        after.entries@.last() == entry,
        0 <= i < before.entries@.len() ==> after.entries@[i] == before.entries@[i],
        after.branch@.len() == before.branch@.len() + 1,
        after.branch@.last() == before.entries@.len(),
        before.branch@.is_prefix_of(after.branch@),
        after.name == before.name,
        after.path == before.path,
        after.autosave == before.autosave,
        after.durability_mode == before.durability_mode,
{
}

/// Keeping the entries keeps all but the name and the header.
pub proof fn law_keeping_entries(before: Session, after: Session)
    requires
        after.keeps_entries(before),
    ensures
        after.entries@ == before.entries@,
        after.branch@ == before.branch@,
        after.path == before.path,
        after.autosave == before.autosave,
        after.durability_mode == before.durability_mode,
{
}

/// A message of an extension is in the session with all that it holds, as the last entry and at the
/// end of the branch, and the header stays as it was.
pub proof fn law_extension_message_is_kept(
    before: Session,
    after: Session,
    id: String,
    message: CustomMessage,
)
    requires
        extension_message_appended(before, after, id, message),
    ensures
        after.entries@.len() == before.entries@.len() + 1,
        before.entries@.is_prefix_of(after.entries@),
        after.entries@.last().id == id,
        after.entries@.last().body matches EntryBody::Message(
            SessionMessage::Custom { custom_type, content, display, details, timestamp },
        ) && custom_type == message.custom_type && content == message.content && display
            == message.display && details == message.details && timestamp == Some(
            message.timestamp,
        ),
        after.header == before.header,
{
}

} // verus!
