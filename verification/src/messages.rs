//! Messages that extensions send, and the events and queues that carry them.
use vstd::prelude::*;

use crate::json::{opt_json, Json, Value};

verus! {

/// How an extension wants its message delivered while the agent works.
#[derive(Clone, Copy, Debug, PartialEq, Eq, Structural)]
pub enum ExtensionDeliverAs {
    /// As soon as the agent can be steered.
    Steer,
    /// When the agent has finished its work.
    FollowUp,
    /// With the next turn, without starting one.
    NextTurn,
}

/// The queue that a message waits in.
#[derive(Clone, Copy, Debug, PartialEq, Eq, Structural)]
pub enum QueuedMessageKind {
    Steering,
    FollowUp,
}

/// How many waiting messages one delivery takes.
#[derive(Clone, Copy, Debug, PartialEq, Eq, Structural)]
pub enum QueueMode {
    All,
    OneAtATime,
}

impl QueueMode {
    /// The name of the mode in settings and reports.
    pub open spec fn name(self) -> Seq<char> {
        match self {
            QueueMode::All => "all"@,
            QueueMode::OneAtATime => "one-at-a-time"@,
        }
    }

    /// The name of the mode in settings and reports.
    pub fn as_str(&self) -> (r: &'static str)
        ensures
            r@ == self.name(),
    {
        match self {
            QueueMode::All => "all",
            QueueMode::OneAtATime => "one-at-a-time",
        }
    }
}

/// A message of an extension to the agent.
#[derive(Debug, PartialEq)]
pub struct ExtensionSendMessage {
    pub extension_id: Option<String>,
    pub custom_type: String,
    pub content: String,
    /// Whether the user sees the content as a note.
    pub display: bool,
    pub details: Option<Value>,
    pub deliver_as: Option<ExtensionDeliverAs>,
    /// Whether an idle agent starts a turn on the message.
    pub trigger_turn: bool,
}

/// A message that an extension sends in the user's name.
#[derive(Debug, PartialEq)]
pub struct ExtensionSendUserMessage {
    pub extension_id: Option<String>,
    pub text: String,
    pub deliver_as: Option<ExtensionDeliverAs>,
}

/// A message of an extension as the agent and the session hold it.
#[derive(Debug, PartialEq)]
pub struct CustomMessage {
    pub content: String,
    pub custom_type: String,
    pub display: bool,
    pub details: Option<Value>,
    /// Milliseconds since the Unix epoch.
    pub timestamp: i64,
}

/// The model of a custom message.
pub struct Custom {
    pub content: Seq<char>,
    pub custom_type: Seq<char>,
    pub display: bool,
    pub details: Option<Json>,
    pub timestamp: i64,
}

impl View for CustomMessage {
    type V = Custom;

    open spec fn view(&self) -> Custom {
        Custom {
            content: self.content@,
            custom_type: self.custom_type@,
            display: self.display,
            details: opt_json(self.details),
            timestamp: self.timestamp,
        }
    }
}

impl Clone for CustomMessage {
    fn clone(&self) -> (r: CustomMessage)
        ensures
            r@ == self@,
    {
        CustomMessage {
            content: self.content.clone(),
            custom_type: self.custom_type.clone(),
            display: self.display,
            details: match &self.details {
                Some(details) => Some(details.clone()),
                None => None,
            },
            timestamp: self.timestamp,
        }
    }
}

/// Input that waits for the agent.
#[derive(Debug, PartialEq)]
pub enum PendingInput {
    Text(String),
    /// Go on with what the agent already holds.
    Continue,
}

/// An event for the user interface.
#[derive(Debug, PartialEq)]
pub enum PiMsg {
    /// What the program itself has to say.
    System(String),
    /// What an extension has to say.
    SystemNote(String),
    EnqueuePendingInput(PendingInput),
}

/// The model of an event.
pub enum UiEvent {
    System(Seq<char>),
    SystemNote(Seq<char>),
    Text(Seq<char>),
    Continue,
}

impl View for PiMsg {
    type V = UiEvent;

    open spec fn view(&self) -> UiEvent {
        match self {
            PiMsg::System(text) => UiEvent::System(text@),
            PiMsg::SystemNote(text) => UiEvent::SystemNote(text@),
            PiMsg::EnqueuePendingInput(PendingInput::Text(text)) => UiEvent::Text(text@),
            PiMsg::EnqueuePendingInput(PendingInput::Continue) => UiEvent::Continue,
        }
    }
}

/// The queue that a message waits in while the agent works: steering unless it is a follow-up.
pub open spec fn queue_kind_spec(deliver_as: Option<ExtensionDeliverAs>) -> QueuedMessageKind {
    match deliver_as {
        Some(ExtensionDeliverAs::FollowUp) => QueuedMessageKind::FollowUp,
        _ => QueuedMessageKind::Steering,
    }
}

/// The queue that a message waits in while the agent works.
pub fn queue_kind(deliver_as: Option<ExtensionDeliverAs>) -> (r: QueuedMessageKind)
    ensures
        r == queue_kind_spec(deliver_as),
{
    match deliver_as {
        Some(ExtensionDeliverAs::FollowUp) => QueuedMessageKind::FollowUp,
        _ => QueuedMessageKind::Steering,
    }
}

/// Texts of the user, or sent in the user's name, that wait for the agent.
#[derive(Debug, PartialEq)]
pub struct InteractiveMessageQueue {
    pub steering: Vec<String>,
    pub follow_up: Vec<String>,
    pub steering_mode: QueueMode,
    pub follow_up_mode: QueueMode,
}

/// Messages of extensions that wait for the agent.
#[derive(Debug, PartialEq)]
pub struct InjectedMessageQueue {
    pub steering: Vec<CustomMessage>,
    pub follow_up: Vec<CustomMessage>,
    pub steering_mode: QueueMode,
    pub follow_up_mode: QueueMode,
}

impl InteractiveMessageQueue {
    /// Two empty queues.
    pub fn new(steering_mode: QueueMode, follow_up_mode: QueueMode) -> (r: InteractiveMessageQueue)
        ensures
            r.steering@ == Seq::<String>::empty(),
            r.follow_up@ == Seq::<String>::empty(),
            r.steering_mode == steering_mode,
            r.follow_up_mode == follow_up_mode,
    {
        InteractiveMessageQueue {
            steering: Vec::new(),
            follow_up: Vec::new(),
            steering_mode,
            follow_up_mode,
        }
    }

    /// Appends a text to the steering queue.
    pub fn push_steering(&mut self, text: String)
        ensures
            final(self).steering@ == old(self).steering@.push(text),
            final(self).follow_up == old(self).follow_up,
            final(self).steering_mode == old(self).steering_mode,
            final(self).follow_up_mode == old(self).follow_up_mode,
    {
        self.steering.push(text);
    }

    /// Appends a text to the follow-up queue.
    pub fn push_follow_up(&mut self, text: String)
        ensures
            final(self).follow_up@ == old(self).follow_up@.push(text),
            final(self).steering == old(self).steering,
            final(self).steering_mode == old(self).steering_mode,
            final(self).follow_up_mode == old(self).follow_up_mode,
    {
        self.follow_up.push(text);
    }
}

impl InjectedMessageQueue {
    /// Two empty queues.
    pub fn new(steering_mode: QueueMode, follow_up_mode: QueueMode) -> (r: InjectedMessageQueue)
        ensures
            r.steering@ == Seq::<CustomMessage>::empty(),
            r.follow_up@ == Seq::<CustomMessage>::empty(),
            r.steering_mode == steering_mode,
            r.follow_up_mode == follow_up_mode,
    {
        InjectedMessageQueue {
            steering: Vec::new(),
            follow_up: Vec::new(),
            steering_mode,
            follow_up_mode,
        }
    }

    /// Appends a message to the steering queue.
    pub fn push_steering(&mut self, message: CustomMessage)
        ensures
            final(self).steering@ == old(self).steering@.push(message),
            final(self).follow_up == old(self).follow_up,
            final(self).steering_mode == old(self).steering_mode,
            final(self).follow_up_mode == old(self).follow_up_mode,
    {
        self.steering.push(message);
    }

    /// Appends a message to the follow-up queue.
    pub fn push_follow_up(&mut self, message: CustomMessage)
        ensures
            final(self).follow_up@ == old(self).follow_up@.push(message),
            final(self).steering == old(self).steering,
            final(self).steering_mode == old(self).steering_mode,
            final(self).follow_up_mode == old(self).follow_up_mode,
    {
        self.follow_up.push(message);
    }
}

/// A message waits for steering unless it is a follow-up.
pub proof fn law_only_follow_ups_wait_for_the_end(deliver_as: Option<ExtensionDeliverAs>)
    ensures
        deliver_as is None ==> queue_kind_spec(deliver_as) is Steering,
        deliver_as matches Some(ExtensionDeliverAs::Steer) ==> queue_kind_spec(deliver_as)
            is Steering,
        deliver_as matches Some(ExtensionDeliverAs::NextTurn) ==> queue_kind_spec(deliver_as)
            is Steering,
        deliver_as matches Some(ExtensionDeliverAs::FollowUp) ==> queue_kind_spec(deliver_as)
            is FollowUp,
{
}

/// The names of the modes.
pub proof fn law_queue_mode_names(mode: QueueMode)
    ensures
        mode is All ==> mode.name() == "all"@,
        mode is OneAtATime ==> mode.name() == "one-at-a-time"@,
{
}

/// The model of a message leaves out nothing, and neither do those of events.
pub proof fn law_message_models_keep_fields(message: CustomMessage, event: PiMsg)
    ensures
        message@.content == message.content@,
        message@.custom_type == message.custom_type@,
        message@.display == message.display,
        message@.timestamp == message.timestamp,
        message.details is None <==> message@.details is None,
        message.details matches Some(details) ==> message@.details == Some(details@),
        event matches PiMsg::System(text) ==> event@ == UiEvent::System(text@),
        event matches PiMsg::SystemNote(text) ==> event@ == UiEvent::SystemNote(text@),
        event matches PiMsg::EnqueuePendingInput(PendingInput::Text(text)) ==> event@
            == UiEvent::Text(text@),
        event matches PiMsg::EnqueuePendingInput(PendingInput::Continue) ==> event@
            == UiEvent::Continue,
{
}

} // verus!
