//! What happens to the messages that extensions send: whether they wait in a queue or reach the
//! session at once, what the user sees of them, and whether they start a turn.
use vstd::prelude::*;

use crate::json::opt_json;
use crate::messages::{
    queue_kind, queue_kind_spec, Custom, CustomMessage, ExtensionDeliverAs, ExtensionSendMessage,
    ExtensionSendUserMessage, InjectedMessageQueue, InteractiveMessageQueue, PendingInput, PiMsg,
    QueuedMessageKind, UiEvent,
};

verus! {

broadcast use vstd::string::group_string_axioms;

/// What can go wrong when an extension acts on the session.
#[derive(Debug, PartialEq)]
pub enum Error {
    /// The session could not be reached or written.
    Session(String),
    /// The request itself is not acceptable.
    Validation(String),
}

/// The model of an error.
pub enum Failure {
    Session(Seq<char>),
    Validation(Seq<char>),
}

impl View for Error {
    type V = Failure;

    open spec fn view(&self) -> Failure {
        match self {
            Error::Session(text) => Failure::Session(text@),
            Error::Validation(text) => Failure::Validation(text@),
        }
    }
}

/// Whether a message to an idle agent starts a turn. One for the next turn never does.
pub open spec fn triggers_turn(
    deliver_as: Option<ExtensionDeliverAs>,
    trigger_turn: bool,
) -> bool {
    trigger_turn && deliver_as != Some(ExtensionDeliverAs::NextTurn)
}

/// Whether a message to an idle agent starts a turn.
pub fn should_trigger_turn(deliver_as: Option<ExtensionDeliverAs>, trigger_turn: bool) -> (r: bool)
    ensures
        r == triggers_turn(deliver_as, trigger_turn),
{
    trigger_turn && !matches!(deliver_as, Some(ExtensionDeliverAs::NextTurn))
}

/// Whether `after` is `before` with a message in the queue that its delivery asks for.
pub open spec fn message_queued(
    before: InjectedMessageQueue,
    after: InjectedMessageQueue,
    deliver_as: Option<ExtensionDeliverAs>,
    message: CustomMessage,
) -> bool {
    &&& match queue_kind_spec(deliver_as) {
        QueuedMessageKind::Steering => after.steering@ == before.steering@.push(message)
            && after.follow_up == before.follow_up,
        QueuedMessageKind::FollowUp => after.follow_up@ == before.follow_up@.push(message)
            && after.steering == before.steering,
    }
    &&& after.steering_mode == before.steering_mode
    &&& after.follow_up_mode == before.follow_up_mode
}

/// Puts a message of an extension into the queue that its delivery asks for.
pub fn queue_custom_message(
    queue: &mut InjectedMessageQueue,
    deliver_as: Option<ExtensionDeliverAs>,
    message: CustomMessage,
)
    ensures
        queue_kind_spec(deliver_as) == QueuedMessageKind::Steering ==> {
            &&& final(queue).steering@ == old(queue).steering@.push(message)
            &&& final(queue).follow_up == old(queue).follow_up
        },
        queue_kind_spec(deliver_as) == QueuedMessageKind::FollowUp ==> {
            &&& final(queue).follow_up@ == old(queue).follow_up@.push(message)
            &&& final(queue).steering == old(queue).steering
        },
        final(queue).steering_mode == old(queue).steering_mode,
        final(queue).follow_up_mode == old(queue).follow_up_mode,
        message_queued(*old(queue), *final(queue), deliver_as, message),
{
    match queue_kind(deliver_as) {
        QueuedMessageKind::Steering => queue.push_steering(message),
        QueuedMessageKind::FollowUp => queue.push_follow_up(message),
    }
}

// ---------------------------------------------------------------------------------------------
// Messages to the agent
// ---------------------------------------------------------------------------------------------

/// What the host does next for a message. It reports back how that went.
#[derive(Debug, PartialEq)]
pub enum SendAction {
    /// Let the message wait for the working agent.
    Queue(Option<ExtensionDeliverAs>, CustomMessage),
    /// Append the message to the session.
    Persist(CustomMessage),
    /// Add the message to what the agent remembers.
    AddToAgent(CustomMessage),
    /// Send an event to the user interface.
    Emit(PiMsg),
    /// Nothing more is to be done.
    Finish(Result<(), Error>),
}

/// The model of an action.
pub enum Action {
    Queue(Option<ExtensionDeliverAs>, Custom),
    Persist(Custom),
    AddToAgent(Custom),
    Emit(UiEvent),
    Finish(Result<(), Failure>),
}

impl View for SendAction {
    type V = Action;

    open spec fn view(&self) -> Action {
        match self {
            SendAction::Queue(deliver_as, message) => Action::Queue(*deliver_as, message@),
            SendAction::Persist(message) => Action::Persist(message@),
            SendAction::AddToAgent(message) => Action::AddToAgent(message@),
            SendAction::Emit(event) => Action::Emit(event@),
            SendAction::Finish(Ok(())) => Action::Finish(Ok(())),
            SendAction::Finish(Err(error)) => Action::Finish(Err(error@)),
        }
    }
}

/// How far the delivery of a message has come: the action that was handed out last.
#[derive(Clone, Copy, Debug, PartialEq, Eq, Structural)]
pub enum SendStage {
    /// None yet, and the agent works.
    StartStreaming,
    /// None yet, and the agent is idle.
    StartIdle,
    Queued,
    Persisted,
    Added,
    /// The note of a message to an idle agent.
    Noted,
    /// The last event.
    Closing,
    Finished,
}

/// The delivery of one message to the agent.
#[derive(Debug, PartialEq)]
pub struct SendMessage {
    pub message: CustomMessage,
    pub deliver_as: Option<ExtensionDeliverAs>,
    pub trigger_turn: bool,
    pub stage: SendStage,
}

/// The model of a delivery.
pub struct Delivery {
    pub message: Custom,
    pub deliver_as: Option<ExtensionDeliverAs>,
    pub trigger_turn: bool,
    pub stage: SendStage,
}

impl View for SendMessage {
    type V = Delivery;

    open spec fn view(&self) -> Delivery {
        Delivery {
            message: self.message@,
            deliver_as: self.deliver_as,
            trigger_turn: self.trigger_turn,
            stage: self.stage,
        }
    }
}

/// The custom message that an extension's message becomes.
pub open spec fn custom_of(message: ExtensionSendMessage, timestamp: i64) -> Custom {
    Custom {
        content: message.content@,
        custom_type: message.custom_type@,
        display: message.display,
        details: opt_json(message.details),
        timestamp,
    }
}

/// A delivery before its first action.
pub open spec fn delivery_start(
    message: ExtensionSendMessage,
    timestamp: i64,
    is_streaming: bool,
) -> Delivery {
    Delivery {
        message: custom_of(message, timestamp),
        deliver_as: message.deliver_as,
        trigger_turn: message.trigger_turn,
        stage: if is_streaming {
            SendStage::StartStreaming
        } else {
            SendStage::StartIdle
        },
    }
}

impl Delivery {
    /// This delivery at another stage.
    pub open spec fn at(self, stage: SendStage) -> Delivery {
        Delivery { stage, ..self }
    }

    /// The next action, and the delivery after it, given how the last action went. Only a failure
    /// to reach the session stops a delivery.
    pub open spec fn step(self, outcome: Result<(), Seq<char>>) -> (Delivery, Action) {
        let note = Action::Emit(UiEvent::SystemNote(self.message.content));
        let finish = (self.at(SendStage::Finished), Action::Finish(Ok(())));
        let close = if triggers_turn(self.deliver_as, self.trigger_turn) {
            (self.at(SendStage::Closing), Action::Emit(UiEvent::Continue))
        } else {
            finish
        };
        match self.stage {
            SendStage::StartStreaming => (
                self.at(SendStage::Queued),
                Action::Queue(self.deliver_as, self.message),
            ),
            SendStage::Queued => if self.message.display {
                (self.at(SendStage::Closing), note)
            } else {
                finish
            },
            SendStage::StartIdle => (
                self.at(SendStage::Persisted),
                Action::Persist(self.message),
            ),
            SendStage::Persisted => match outcome {
                Ok(()) => (self.at(SendStage::Added), Action::AddToAgent(self.message)),
                Err(text) => (
                    self.at(SendStage::Finished),
                    Action::Finish(Err(Failure::Session(text))),
                ),
            },
            SendStage::Added => if self.message.display {
                (self.at(SendStage::Noted), note)
            } else {
                close
            },
            SendStage::Noted => close,
            SendStage::Closing | SendStage::Finished => finish,
        }
    }
}

/// The model of how an action went.
pub open spec fn outcome_view(outcome: Result<(), String>) -> Result<(), Seq<char>> {
    match outcome {
        Ok(()) => Ok(()),
        Err(text) => Err(text@),
    }
}

/// Reads the clock: `chrono::Utc::now` of the crate `chrono`, in milliseconds since the Unix
/// epoch by `chrono::DateTime::timestamp_millis`. The time is at or after the epoch, since
/// `Utc::now` does not return where the clock stands before it; nothing else is claimed of it.
#[verifier::external_body]
fn now_millis() -> (r: i64)
    ensures
        r >= 0,
{
    chrono::Utc::now().timestamp_millis()
}

impl SendMessage {
    /// Starts the delivery of a message, stamped with the time of the call.
    pub fn start(message: ExtensionSendMessage, is_streaming: bool) -> (r: SendMessage)
        ensures
            r@ == delivery_start(message, r.message.timestamp, is_streaming),
            r.message.timestamp >= 0,
            r.message.content == message.content,
            r.message.custom_type == message.custom_type,
            r.message.display == message.display,
            r.message.details == message.details,
            r.deliver_as == message.deliver_as,
            r.trigger_turn == message.trigger_turn,
    {
        let timestamp: i64 = now_millis();
        SendMessage::start_at(message, timestamp, is_streaming)
    }

    /// Starts the delivery of a message that was sent at a given time.
    pub fn start_at(message: ExtensionSendMessage, timestamp: i64, is_streaming: bool) -> (r:
        SendMessage)
        ensures
            r@ == delivery_start(message, timestamp, is_streaming),
            r.message.content == message.content,
            r.message.custom_type == message.custom_type,
            r.message.display == message.display,
            r.message.details == message.details,
            r.message.timestamp == timestamp,
            r.deliver_as == message.deliver_as,
            r.trigger_turn == message.trigger_turn,
    {
        let stage: SendStage = if is_streaming {
            SendStage::StartStreaming
        } else {
            SendStage::StartIdle
        };
        SendMessage {
            deliver_as: message.deliver_as,
            trigger_turn: message.trigger_turn,
            stage,
            message: CustomMessage {
                content: message.content,
                custom_type: message.custom_type,
                display: message.display,
                details: message.details,
                timestamp,
            },
        }
    }

    /// The note that shows the message to the user.
    fn note(&self) -> (r: SendAction)
        ensures
            r@ == Action::Emit(UiEvent::SystemNote(self.message@.content)),
    {
        SendAction::Emit(PiMsg::SystemNote(self.message.content.clone()))
    }

    /// Ends the delivery to an idle agent, with a turn where the message starts one.
    fn close(&mut self) -> (r: SendAction)
        ensures
            (final(self)@, r@) == (if triggers_turn(old(self).deliver_as, old(self).trigger_turn) {
                (old(self)@.at(SendStage::Closing), Action::Emit(UiEvent::Continue))
            } else {
                (old(self)@.at(SendStage::Finished), Action::Finish(Ok(())))
            }),
    {
        if should_trigger_turn(self.deliver_as, self.trigger_turn) {
            self.stage = SendStage::Closing;
            SendAction::Emit(PiMsg::EnqueuePendingInput(PendingInput::Continue))
        } else {
            self.stage = SendStage::Finished;
            SendAction::Finish(Ok(()))
        }
    }

    /// Hands out the next action, given how the last one went.
    pub fn next(&mut self, outcome: Result<(), String>) -> (r: SendAction)
        ensures
            (final(self)@, r@) == old(self)@.step(outcome_view(outcome)),
    {
        match self.stage {
            SendStage::StartStreaming => {
                self.stage = SendStage::Queued;
                SendAction::Queue(self.deliver_as, self.message.clone())
            },
            SendStage::Queued => if self.message.display {
                self.stage = SendStage::Closing;
                self.note()
            } else {
                self.stage = SendStage::Finished;
                SendAction::Finish(Ok(()))
            },
            SendStage::StartIdle => {
                self.stage = SendStage::Persisted;
                SendAction::Persist(self.message.clone())
            },
            SendStage::Persisted => match outcome {
                Ok(()) => {
                    self.stage = SendStage::Added;
                    SendAction::AddToAgent(self.message.clone())
                },
                Err(text) => {
                    self.stage = SendStage::Finished;
                    SendAction::Finish(Err(Error::Session(text)))
                },
            },
            SendStage::Added => if self.message.display {
                self.stage = SendStage::Noted;
                self.note()
            } else {
                self.close()
            },
            SendStage::Noted => self.close(),
            SendStage::Closing | SendStage::Finished => {
                self.stage = SendStage::Finished;
                SendAction::Finish(Ok(()))
            },
        }
    }
}

// ---------------------------------------------------------------------------------------------
// Messages in the user's name
// ---------------------------------------------------------------------------------------------

/// What the host does with a message that an extension sends in the user's name.
#[derive(Debug, PartialEq)]
pub enum UserMessageAction {
    /// Let the text wait for the working agent.
    Queue(QueuedMessageKind, String),
    /// Send an event to the user interface.
    Emit(PiMsg),
}

/// The model of such an action.
pub enum UserAction {
    Queue(QueuedMessageKind, Seq<char>),
    Emit(UiEvent),
}

impl View for UserMessageAction {
    type V = UserAction;

    open spec fn view(&self) -> UserAction {
        match self {
            UserMessageAction::Queue(kind, text) => UserAction::Queue(*kind, text@),
            UserMessageAction::Emit(event) => UserAction::Emit(event@),
        }
    }
}

/// Where a text in the user's name goes.
pub open spec fn user_action(
    text: Seq<char>,
    deliver_as: Option<ExtensionDeliverAs>,
    is_streaming: bool,
) -> UserAction {
    if is_streaming {
        UserAction::Queue(queue_kind_spec(deliver_as), text)
    } else {
        UserAction::Emit(UiEvent::Text(text))
    }
}

/// Decides where a message in the user's name goes: a working agent finds it in a queue, an idle
/// one gets it as input.
pub fn send_user_message(message: ExtensionSendUserMessage, is_streaming: bool) -> (r:
    UserMessageAction)
    ensures
        r@ == (if is_streaming {
            UserAction::Queue(queue_kind_spec(message.deliver_as), message.text@)
        } else {
            UserAction::Emit(UiEvent::Text(message.text@))
        }),
        r@ == user_action(message.text@, message.deliver_as, is_streaming),
{
    if is_streaming {
        UserMessageAction::Queue(queue_kind(message.deliver_as), message.text)
    } else {
        UserMessageAction::Emit(PiMsg::EnqueuePendingInput(PendingInput::Text(message.text)))
    }
}

/// Puts a text into the queue that was decided for it.
pub fn queue_user_message(
    queue: &mut InteractiveMessageQueue,
    kind: QueuedMessageKind,
    text: String,
)
    ensures
        kind == QueuedMessageKind::Steering ==> {
            &&& final(queue).steering@ == old(queue).steering@.push(text)
            &&& final(queue).follow_up == old(queue).follow_up
        },
        kind == QueuedMessageKind::FollowUp ==> {
            &&& final(queue).follow_up@ == old(queue).follow_up@.push(text)
            &&& final(queue).steering == old(queue).steering
        },
        final(queue).steering_mode == old(queue).steering_mode,
        final(queue).follow_up_mode == old(queue).follow_up_mode,
{
    match kind {
        QueuedMessageKind::Steering => queue.push_steering(text),
        QueuedMessageKind::FollowUp => queue.push_follow_up(text),
    }
}

// ---------------------------------------------------------------------------------------------
// Laws
// ---------------------------------------------------------------------------------------------

/// The actions of a delivery, up to and with the one that finishes it but at most `n`. The
/// outcome that is reported before the first action is `outcomes[0]`, and so on.
pub open spec fn actions(
    delivery: Delivery,
    outcomes: spec_fn(nat) -> Result<(), Seq<char>>,
    i: nat,
    n: nat,
) -> Seq<Action>
    decreases n,
{
    if n == 0 {
        Seq::empty()
    } else {
        let (next, action) = delivery.step(outcomes(i));
        if action is Finish {
            seq![action]
        } else {
            seq![action] + actions(next, outcomes, i + 1, (n - 1) as nat)
        }
    }
}

/// No delivery takes more actions than this.
pub open spec fn longest_delivery() -> nat {
    5
}

/// All that is done for a message to a working agent.
pub open spec fn streaming_actions(message: Custom, deliver_as: Option<ExtensionDeliverAs>) -> Seq<
    Action,
> {
    seq![Action::Queue(deliver_as, message)] + note_actions(message) + seq![
        Action::Finish(Ok(())),
    ]
}

/// All that is done for a message to an idle agent whose session can be reached.
pub open spec fn idle_actions(
    message: Custom,
    deliver_as: Option<ExtensionDeliverAs>,
    trigger_turn: bool,
) -> Seq<Action> {
    seq![Action::Persist(message), Action::AddToAgent(message)] + note_actions(message) + (
    if triggers_turn(deliver_as, trigger_turn) {
        seq![Action::Emit(UiEvent::Continue)]
    } else {
        Seq::empty()
    }) + seq![Action::Finish(Ok(()))]
}

/// The note of a message that is displayed.
pub open spec fn note_actions(message: Custom) -> Seq<Action> {
    if message.display {
        seq![Action::Emit(UiEvent::SystemNote(message.content))]
    } else {
        Seq::empty()
    }
}

/// A message to a working agent only waits in a queue, whatever goes wrong on the way; neither
/// the session nor the agent is touched, and no turn starts.
pub proof fn law_streaming_delivery(
    message: ExtensionSendMessage,
    timestamp: i64,
    outcomes: spec_fn(nat) -> Result<(), Seq<char>>,
)
    ensures
        actions(delivery_start(message, timestamp, true), outcomes, 0, longest_delivery())
            == streaming_actions(custom_of(message, timestamp), message.deliver_as),
{
    reveal_with_fuel(actions, 6);
    assert(actions(delivery_start(message, timestamp, true), outcomes, 0, longest_delivery())
        =~= streaming_actions(custom_of(message, timestamp), message.deliver_as));
}

/// A message to an idle agent reaches the session, then the agent, then the user where it is
/// displayed, and last of all starts a turn where it asks for one. Where the session cannot be
/// reached, nothing else happens and the extension gets that error.
pub proof fn law_idle_delivery(
    message: ExtensionSendMessage,
    timestamp: i64,
    outcomes: spec_fn(nat) -> Result<(), Seq<char>>,
)
    ensures
        actions(delivery_start(message, timestamp, false), outcomes, 0, longest_delivery())
            == match outcomes(1) {
            Ok(()) => idle_actions(
                custom_of(message, timestamp),
                message.deliver_as,
                message.trigger_turn,
            ),
            Err(text) => seq![
                Action::Persist(custom_of(message, timestamp)),
                Action::Finish(Err(Failure::Session(text))),
            ],
        },
{
    reveal_with_fuel(actions, 6);
    let expected = match outcomes(1) {
        Ok(()) => idle_actions(
            custom_of(message, timestamp),
            message.deliver_as,
            message.trigger_turn,
        ),
        Err(text) => seq![
            Action::Persist(custom_of(message, timestamp)),
            Action::Finish(Err(Failure::Session(text))),
        ],
    };
    assert(actions(delivery_start(message, timestamp, false), outcomes, 0, longest_delivery())
        =~= expected);
}

/// A message for the next turn never starts one, even where it asks to.
pub proof fn law_next_turn_never_starts_a_turn(
    message: ExtensionSendMessage,
    timestamp: i64,
    is_streaming: bool,
    outcomes: spec_fn(nat) -> Result<(), Seq<char>>,
)
    requires
        message.deliver_as == Some(ExtensionDeliverAs::NextTurn),
    ensures
        !actions(
            delivery_start(message, timestamp, is_streaming),
            outcomes,
            0,
            longest_delivery(),
        ).contains(Action::Emit(UiEvent::Continue)),
{
    law_streaming_delivery(message, timestamp, outcomes);
    law_idle_delivery(message, timestamp, outcomes);
}

/// Whether a message carries all that an extension sent.
pub open spec fn carries(sent: ExtensionSendMessage, timestamp: i64, message: Custom) -> bool {
    &&& message.content == sent.content@
    &&& message.custom_type == sent.custom_type@
    &&& message.display == sent.display
    &&& sent.details is None ==> message.details is None
    &&& sent.details matches Some(details) ==> message.details == Some(details@)
    &&& message.timestamp == timestamp
}

/// A delivery starts with all that the extension sent: content, type, display flag, details, and
/// how it is to be delivered.
pub proof fn law_delivery_carries_the_message(
    sent: ExtensionSendMessage,
    timestamp: i64,
    is_streaming: bool,
)
    ensures
        carries(sent, timestamp, delivery_start(sent, timestamp, is_streaming).message),
        delivery_start(sent, timestamp, is_streaming).deliver_as == sent.deliver_as,
        delivery_start(sent, timestamp, is_streaming).trigger_turn == sent.trigger_turn,
{
}

/// For a message to a working agent: first it is queued, with all that was sent; then, where it is
/// displayed, a note shows its content; then the delivery is over. What was reported back on the
/// way does not matter.
pub proof fn law_working_agent_step_by_step(
    sent: ExtensionSendMessage,
    timestamp: i64,
    first: Result<(), Seq<char>>,
    second: Result<(), Seq<char>>,
    third: Result<(), Seq<char>>,
)
    ensures
        ({
            let (queued, action) = delivery_start(sent, timestamp, true).step(first);
            let (closing, next) = queued.step(second);
            let (_, last) = closing.step(third);
            &&& action matches Action::Queue(deliver_as, message) && deliver_as == sent.deliver_as
                && carries(sent, timestamp, message)
            &&& sent.display ==> next == Action::Emit(UiEvent::SystemNote(sent.content@)) && last
                == Action::Finish(Ok(()))
            &&& !sent.display ==> next == Action::Finish(Ok(()))
        }),
{
}

/// For a message to an idle agent: first it is persisted, with all that was sent. Where that
/// failed, the delivery is over with that error. Else the agent gets it, with all that was sent;
/// then, where it is displayed, a note shows its content; then, where it asks for a turn and is
/// not for the next one, the agent goes on; and then the delivery is over. But for the first, what
/// was reported back does not matter.
pub proof fn law_idle_agent_step_by_step(
    sent: ExtensionSendMessage,
    timestamp: i64,
    reports: Seq<Result<(), Seq<char>>>,
)
    requires
        reports.len() == 5,
    ensures
        ({
            let (d1, a1) = delivery_start(sent, timestamp, false).step(reports[0]);
            let (d2, a2) = d1.step(reports[1]);
            let (d3, a3) = d2.step(reports[2]);
            let (d4, a4) = d3.step(reports[3]);
            let (_, a5) = d4.step(reports[4]);
            let note = Action::Emit(UiEvent::SystemNote(sent.content@));
            let go_on = Action::Emit(UiEvent::Continue);
            let over = Action::Finish(Ok(()));
            let turn = sent.trigger_turn && !(sent.deliver_as matches Some(
                ExtensionDeliverAs::NextTurn,
            ));
            &&& a1 matches Action::Persist(message) && carries(sent, timestamp, message)
            &&& reports[1] matches Err(text) ==> a2 == Action::Finish(Err(Failure::Session(text)))
            &&& reports[1] is Ok ==> {
                &&& a2 matches Action::AddToAgent(message) && carries(sent, timestamp, message)
                &&& sent.display && turn ==> a3 == note && a4 == go_on && a5 == over
                &&& sent.display && !turn ==> a3 == note && a4 == over
                &&& !sent.display && turn ==> a3 == go_on && a4 == over
                &&& !sent.display && !turn ==> a3 == over
            }
        }),
{
}

/// A delivery that is over stays so.
pub proof fn law_finished_delivery_stays_finished(
    delivery: Delivery,
    report: Result<(), Seq<char>>,
    later: Result<(), Seq<char>>,
)
    requires
        delivery.step(report).1 is Finish,
    ensures
        delivery.step(report).0.step(later).1 == Action::Finish(Ok(())),
{
}

/// A turn starts where one is asked for, unless the message is for the next one.
pub proof fn law_turns_start_on_request(
    deliver_as: Option<ExtensionDeliverAs>,
    trigger_turn: bool,
)
    ensures
        !trigger_turn ==> !triggers_turn(deliver_as, trigger_turn),
        deliver_as matches Some(ExtensionDeliverAs::NextTurn) ==> !triggers_turn(
            deliver_as,
            trigger_turn,
        ),
        trigger_turn && deliver_as is None ==> triggers_turn(deliver_as, trigger_turn),
        trigger_turn && (deliver_as matches Some(ExtensionDeliverAs::Steer)) ==> triggers_turn(
            deliver_as,
            trigger_turn,
        ),
        trigger_turn && (deliver_as matches Some(ExtensionDeliverAs::FollowUp)) ==> triggers_turn(
            deliver_as,
            trigger_turn,
        ),
{
}

/// The models of actions, deliveries and errors leave out nothing.
pub proof fn law_delivery_models_keep_fields(
    action: SendAction,
    delivery: SendMessage,
    user_action: UserMessageAction,
    error: Error,
)
    ensures
        action matches SendAction::Queue(deliver_as, message) ==> action@ == Action::Queue(
            deliver_as,
            message@,
        ),
        action matches SendAction::Persist(message) ==> action@ == Action::Persist(message@),
        action matches SendAction::AddToAgent(message) ==> action@ == Action::AddToAgent(message@),
        action matches SendAction::Emit(event) ==> action@ == Action::Emit(event@),
        action matches SendAction::Finish(Ok(())) ==> action@ == Action::Finish(Ok(())),
        action matches SendAction::Finish(Err(error)) ==> action@ == Action::Finish(Err(error@)),
        delivery@.message == delivery.message@,
        delivery@.deliver_as == delivery.deliver_as,
        delivery@.trigger_turn == delivery.trigger_turn,
        delivery@.stage == delivery.stage,
        user_action matches UserMessageAction::Queue(kind, text) ==> user_action@
            == UserAction::Queue(kind, text@),
        user_action matches UserMessageAction::Emit(event) ==> user_action@ == UserAction::Emit(
            event@,
        ),
        error matches Error::Session(text) ==> error@ == Failure::Session(text@),
        error matches Error::Validation(text) ==> error@ == Failure::Validation(text@),
{
}

/// The model of a report is the report.
pub proof fn law_report_model(report: Result<(), String>)
    ensures
        report is Ok <==> outcome_view(report) is Ok,
        report matches Err(text) ==> outcome_view(report) == Err::<(), Seq<char>>(text@),
{
}

/// A message of an extension waits behind those that wait already: a follow-up among the
/// follow-ups, any other for steering. The other queue and the modes stay as they were.
pub proof fn law_messages_wait_in_line(
    before: InjectedMessageQueue,
    after: InjectedMessageQueue,
    deliver_as: Option<ExtensionDeliverAs>,
    message: CustomMessage,
)
    requires
        message_queued(before, after, deliver_as, message),
    ensures
        deliver_as matches Some(ExtensionDeliverAs::FollowUp) ==> after.follow_up@
            == before.follow_up@.push(message) && after.steering@ == before.steering@,
        !(deliver_as matches Some(ExtensionDeliverAs::FollowUp)) ==> after.steering@
            == before.steering@.push(message) && after.follow_up@ == before.follow_up@,
        after.steering_mode == before.steering_mode,
        after.follow_up_mode == before.follow_up_mode,
{
}

/// A text in the user's name becomes input of an idle agent, and waits for a working one, with the
/// follow-ups where it is one and else for steering.
pub proof fn law_user_messages(
    text: Seq<char>,
    deliver_as: Option<ExtensionDeliverAs>,
    is_streaming: bool,
)
    ensures
        !is_streaming ==> user_action(text, deliver_as, is_streaming) == UserAction::Emit(
            UiEvent::Text(text),
        ),
        is_streaming && (deliver_as matches Some(ExtensionDeliverAs::FollowUp)) ==> user_action(
            text,
            deliver_as,
            is_streaming,
        ) == UserAction::Queue(QueuedMessageKind::FollowUp, text),
        is_streaming && !(deliver_as matches Some(ExtensionDeliverAs::FollowUp)) ==> user_action(
            text,
            deliver_as,
            is_streaming,
        ) == UserAction::Queue(QueuedMessageKind::Steering, text),
{
}

} // verus!
