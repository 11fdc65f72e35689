use std::collections::VecDeque;

use pi_interactive::ext_session::get_branch;
use pi_interactive::host_actions::{
    queue_custom_message, queue_user_message, send_user_message, should_trigger_turn, Error,
    SendAction, SendMessage, UserMessageAction,
};
use pi_interactive::messages::{
    queue_kind, CustomMessage, ExtensionDeliverAs, ExtensionSendMessage, ExtensionSendUserMessage,
    InjectedMessageQueue, InteractiveMessageQueue, PendingInput, PiMsg, QueueMode,
    QueuedMessageKind,
};
use pi_interactive::session::{EntryBody, Session, SessionMessage};

/// A host whose event channel takes a bounded number of events; a receiver makes room.
struct Host {
    streaming: bool,
    capacity: usize,
    channel: VecDeque<PiMsg>,
    received: Vec<PiMsg>,
    session: Session,
    session_lock_error: Option<String>,
    agent: Vec<CustomMessage>,
    injected: InjectedMessageQueue,
    user: InteractiveMessageQueue,
}

fn host(capacity: usize) -> Host {
    Host {
        streaming: false,
        capacity,
        channel: VecDeque::new(),
        received: Vec::new(),
        session: Session::in_memory("session"),
        session_lock_error: None,
        agent: Vec::new(),
        injected: InjectedMessageQueue::new(QueueMode::OneAtATime, QueueMode::OneAtATime),
        user: InteractiveMessageQueue::new(QueueMode::OneAtATime, QueueMode::OneAtATime),
    }
}

impl Host {
    fn emit(&mut self, event: PiMsg) {
        if self.channel.len() == self.capacity {
            let first = self.channel.pop_front().expect("a full channel");
            self.received.push(first);
        }
        self.channel.push_back(event);
    }

    fn drain(mut self) -> Vec<PiMsg> {
        self.received.extend(self.channel);
        self.received
    }

    fn send_message(&mut self, message: ExtensionSendMessage) -> Result<(), Error> {
        let mut delivery = SendMessage::start(message, self.streaming);
        let mut outcome: Result<(), String> = Ok(());
        loop {
            match delivery.next(outcome) {
                SendAction::Queue(deliver_as, message) => {
                    queue_custom_message(&mut self.injected, deliver_as, message);
                    outcome = Ok(());
                }
                SendAction::Persist(message) => {
                    outcome = match &self.session_lock_error {
                        Some(error) => Err(error.clone()),
                        None => {
                            self.session.append_model_message("e-1".to_string(), message);
                            Ok(())
                        }
                    };
                }
                SendAction::AddToAgent(message) => {
                    self.agent.push(message);
                    outcome = Ok(());
                }
                SendAction::Emit(event) => {
                    self.emit(event);
                    outcome = Ok(());
                }
                SendAction::Finish(result) => return result,
            }
        }
    }

    fn send_user_message(&mut self, message: ExtensionSendUserMessage) {
        match send_user_message(message, self.streaming) {
            UserMessageAction::Queue(kind, text) => queue_user_message(&mut self.user, kind, text),
            UserMessageAction::Emit(event) => self.emit(event),
        }
    }
}

fn message(
    content: &str,
    display: bool,
    deliver_as: ExtensionDeliverAs,
    trigger_turn: bool,
) -> ExtensionSendMessage {
    ExtensionSendMessage {
        extension_id: Some("ext".to_string()),
        custom_type: "note".to_string(),
        content: content.to_string(),
        display,
        details: None,
        deliver_as: Some(deliver_as),
        trigger_turn,
    }
}

#[test]
fn idle_send_message_trigger_turn_enqueues_continue() {
    let mut host = host(8);
    host.send_message(message("continue-now", false, ExtensionDeliverAs::Steer, true))
        .expect("send_message");

    assert!(get_branch(Some(&host.session)).into_iter().any(|entry| matches!(
        &entry.body,
        EntryBody::Message(SessionMessage::Custom { custom_type, content, .. })
            if custom_type == "note" && content == "continue-now"
    )));
    assert!(host
        .agent
        .iter()
        .any(|message| message.custom_type == "note" && message.content == "continue-now"));

    let queued = host.channel.pop_front().expect("continue should be queued");
    assert!(matches!(queued, PiMsg::EnqueuePendingInput(PendingInput::Continue)));
}

#[test]
fn idle_send_message_next_turn_ignores_trigger_turn() {
    let mut host = host(8);
    host.send_message(message("defer", false, ExtensionDeliverAs::NextTurn, true))
        .expect("send_message");
    assert!(
        host.channel.pop_front().is_none(),
        "nextTurn should stay deferred even when triggerTurn is set"
    );
}

#[test]
fn streaming_send_message_preserves_display_note_under_backpressure() {
    let mut host = host(1);
    host.streaming = true;
    host.emit(PiMsg::System("busy".to_string()));
    host.send_message(message("visible", true, ExtensionDeliverAs::Steer, false))
        .expect("send_message");

    let mut events = host.drain().into_iter();
    let first = events.next().expect("busy message");
    let second = events.next().expect("display note");
    assert!(matches!(first, PiMsg::System(text) if text == "busy"));
    assert!(matches!(second, PiMsg::SystemNote(text) if text == "visible"));
}

#[test]
fn idle_send_message_preserves_display_and_continue_under_backpressure() {
    let mut host = host(1);
    host.emit(PiMsg::System("busy".to_string()));
    host.send_message(message("continue-now", true, ExtensionDeliverAs::Steer, true))
        .expect("send_message");

    let mut events = host.drain().into_iter();
    let first = events.next().expect("busy message");
    let second = events.next().expect("display note");
    let third = events.next().expect("continue enqueue");
    assert!(matches!(first, PiMsg::System(text) if text == "busy"));
    assert!(matches!(second, PiMsg::SystemNote(text) if text == "continue-now"));
    assert!(matches!(third, PiMsg::EnqueuePendingInput(PendingInput::Continue)));
}

#[test]
fn idle_send_user_message_preserves_text_under_backpressure() {
    let mut host = host(1);
    host.emit(PiMsg::System("busy".to_string()));
    host.send_user_message(ExtensionSendUserMessage {
        extension_id: Some("ext".to_string()),
        text: "hello from extension".to_string(),
        deliver_as: None,
    });

    let mut events = host.drain().into_iter();
    let first = events.next().expect("busy message");
    let second = events.next().expect("user input enqueue");
    assert!(matches!(first, PiMsg::System(text) if text == "busy"));
    assert!(matches!(
        second,
        PiMsg::EnqueuePendingInput(PendingInput::Text(text)) if text == "hello from extension"
    ));
}

#[test]
fn streaming_message_only_waits_in_its_queue() {
    let mut host = host(8);
    host.streaming = true;
    host.send_message(message("one", false, ExtensionDeliverAs::Steer, true)).unwrap();
    host.send_message(message("two", false, ExtensionDeliverAs::FollowUp, true)).unwrap();
    host.send_message(message("three", false, ExtensionDeliverAs::NextTurn, true)).unwrap();
    let steering: Vec<&str> =
        host.injected.steering.iter().map(|message| message.content.as_str()).collect();
    let follow_up: Vec<&str> =
        host.injected.follow_up.iter().map(|message| message.content.as_str()).collect();
    assert_eq!(steering, vec!["one", "three"]);
    assert_eq!(follow_up, vec!["two"]);
    assert!(host.session.entries.is_empty());
    assert!(host.agent.is_empty());
    assert!(host.drain().is_empty());
}

#[test]
fn idle_message_stops_where_the_session_cannot_be_reached() {
    let mut host = host(8);
    host.session_lock_error = Some("poisoned".to_string());
    let result = host.send_message(message("lost", true, ExtensionDeliverAs::Steer, true));
    assert_eq!(result, Err(Error::Session("poisoned".to_string())));
    assert!(host.agent.is_empty());
    assert!(host.drain().is_empty());
}

#[test]
fn failures_other_than_of_the_session_do_not_stop_a_delivery() {
    let mut delivery =
        SendMessage::start_at(message("m", true, ExtensionDeliverAs::Steer, true), 7, false);
    assert!(matches!(delivery.next(Ok(())), SendAction::Persist(m) if m.timestamp == 7));
    assert!(matches!(delivery.next(Ok(())), SendAction::AddToAgent(_)));
    let failed = || Err("no".to_string());
    assert_eq!(delivery.next(failed()), SendAction::Emit(PiMsg::SystemNote("m".to_string())));
    assert_eq!(
        delivery.next(failed()),
        SendAction::Emit(PiMsg::EnqueuePendingInput(PendingInput::Continue))
    );
    assert_eq!(delivery.next(failed()), SendAction::Finish(Ok(())));
    assert_eq!(delivery.next(failed()), SendAction::Finish(Ok(())));
}

#[test]
fn a_message_is_stamped_with_the_time() {
    let early =
        SendMessage::start(message("m", false, ExtensionDeliverAs::Steer, false), false);
    // The year 2020, in milliseconds.
    assert!(early.message.timestamp > 1_577_836_800_000);
    let late = SendMessage::start(message("m", false, ExtensionDeliverAs::Steer, false), false);
    assert!(late.message.timestamp >= early.message.timestamp);
}

#[test]
fn user_messages_wait_for_a_working_agent() {
    let mut host = host(8);
    host.streaming = true;
    for (text, deliver_as) in [
        ("a", None),
        ("b", Some(ExtensionDeliverAs::FollowUp)),
        ("c", Some(ExtensionDeliverAs::Steer)),
        ("d", Some(ExtensionDeliverAs::NextTurn)),
    ] {
        host.send_user_message(ExtensionSendUserMessage {
            extension_id: None,
            text: text.to_string(),
            deliver_as,
        });
    }
    assert_eq!(host.user.steering, vec!["a", "c", "d"]);
    assert_eq!(host.user.follow_up, vec!["b"]);
    assert!(host.drain().is_empty());
}

#[test]
fn turns_are_triggered_unless_deferred() {
    assert!(should_trigger_turn(None, true));
    assert!(should_trigger_turn(Some(ExtensionDeliverAs::Steer), true));
    assert!(should_trigger_turn(Some(ExtensionDeliverAs::FollowUp), true));
    assert!(!should_trigger_turn(Some(ExtensionDeliverAs::NextTurn), true));
    assert!(!should_trigger_turn(None, false));
}

#[test]
fn queue_kinds() {
    assert_eq!(queue_kind(None), QueuedMessageKind::Steering);
    assert_eq!(queue_kind(Some(ExtensionDeliverAs::FollowUp)), QueuedMessageKind::FollowUp);
    assert_eq!(queue_kind(Some(ExtensionDeliverAs::NextTurn)), QueuedMessageKind::Steering);
}
