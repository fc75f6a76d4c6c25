use forger::actions::data::MessageSent;
use forger::actions::{
    ActionResponseInner, AnswerReceiver, NapcatActionParams, NapcatActionRequest,
    NapcatActionResponse, NapcatClientAction,
};
use forger::adapter::{
    after_connect_attempt, handle_frame, route_event, submit_action, ConnectionStep, Dispatch,
    FrameOutcome, IgnoredEvent, NapcatWebsocketFrame, SubmitOutcome, RECONNECT_DELAY_SECS,
};
use forger::events::{HeartBeatEvent, LifeCycleEvent, NapcatEvent};
use forger::models::{
    GroupMessage, GroupMessageSender, HeartbeatStatus, LifeCycleSubType, MessageFormat,
    MessageSegment, MessageTypes, MetaEvent, PrivateMessage, PrivateMessageSender,
};
use forger::pending::PendingActions;

fn response(echo: &str, message_id: u32) -> NapcatActionResponse {
    NapcatActionResponse {
        status: "ok".to_string(),
        retcode: 0,
        data: ActionResponseInner::MessageSent(MessageSent { message_id }),
        message: String::new(),
        wording: String::new(),
        echo: echo.to_string(),
        stream: "normal-action".to_string(),
    }
}

fn private_message(user_id: u32, text: &str) -> PrivateMessage {
    PrivateMessage {
        echo: None,
        time: 1,
        self_id: 10,
        font: 14,
        message: vec![MessageSegment::Text { text: text.to_string() }],
        message_format: MessageFormat::Array,
        message_id: 5,
        message_seq: 5,
        raw_message: text.to_string(),
        real_id: 5,
        real_seq: "5".to_string(),
        sender: PrivateMessageSender::new(String::new(), "alice".to_string(), user_id),
        sub_type: "friend".to_string(),
        target_id: 10,
        user_id,
    }
}

fn group_message(group_id: u32) -> GroupMessage {
    GroupMessage {
        echo: None,
        time: 1,
        self_id: 10,
        real_id: 3,
        real_seq: "3".to_string(),
        sender: GroupMessageSender::new(7, "bob".to_string(), String::new(), "member".to_string()),
        raw_message: "hi".to_string(),
        font: 14,
        sub_type: "normal".to_string(),
        message: vec![MessageSegment::Face { id: "1".to_string() }],
        message_format: MessageFormat::Array,
        group_id,
        group_name: "g".to_string(),
    }
}

fn context(echo: &str) -> (NapcatClientAction, AnswerReceiver) {
    let (mut action, receiver) =
        NapcatActionRequest::create_context(NapcatActionParams::GetLoginInfo);
    action.action.echo = echo.to_string();
    (action, receiver)
}

#[test]
fn answer_reaches_the_submitter_once() {
    let mut pending = PendingActions::new();
    let (action, receiver) = context("e1");
    let outcome = submit_action(&mut pending, action, Some("{}".to_string()));
    assert!(matches!(outcome, SubmitOutcome::Transmit(ref t) if t == "{}"));
    assert!(pending.contains(&"e1".to_string()));
    match handle_frame(&mut pending, NapcatWebsocketFrame::ActionResponse(response("e1", 99))) {
        FrameOutcome::Deliver(sender, answer) => {
            assert_eq!(answer.echo, "e1");
            sender.into_inner().send(answer).unwrap();
        }
        _ => panic!("answer was not delivered"),
    }
    let received = receiver.into_inner().try_recv().expect("the submitter receives the answer");
    assert_eq!(received.echo, "e1");
    assert!(!pending.contains(&"e1".to_string()));
    assert!(matches!(
        handle_frame(&mut pending, NapcatWebsocketFrame::ActionResponse(response("e1", 99))),
        FrameOutcome::Unmatched(_)
    ));
}

#[test]
fn answer_for_other_echo_keeps_request_waiting() {
    let mut pending = PendingActions::new();
    let (action, _receiver) = context("mine");
    submit_action(&mut pending, action, Some("x".to_string()));
    assert!(matches!(
        handle_frame(&mut pending, NapcatWebsocketFrame::ActionResponse(response("other", 1))),
        FrameOutcome::Unmatched(_)
    ));
    assert!(pending.contains(&"mine".to_string()));
    assert!(pending.remove(&"mine".to_string()).is_some());
}

#[test]
fn unencodable_action_is_abandoned() {
    let mut pending = PendingActions::new();
    let (action, receiver) = context("e2");
    match submit_action(&mut pending, action, None) {
        SubmitOutcome::Abandon(sender) => {
            sender.into_inner().send(response("e2", 5)).unwrap();
            assert_eq!(receiver.into_inner().try_recv().unwrap().echo, "e2");
        }
        SubmitOutcome::Transmit(_) => panic!("nothing should be sent"),
    }
    assert!(!pending.contains(&"e2".to_string()));
}

#[test]
fn events_are_forwarded_without_touching_pending() {
    let mut pending = PendingActions::new();
    let (action, _receiver) = context("e3");
    submit_action(&mut pending, action, Some("y".to_string()));
    let outcome = handle_frame(&mut pending, NapcatWebsocketFrame::Event(NapcatEvent::Notice));
    assert!(matches!(outcome, FrameOutcome::Forward(NapcatEvent::Notice)));
    assert!(pending.contains(&"e3".to_string()));
}

#[test]
fn incoming_private_message_is_dispatched() {
    let event = NapcatEvent::Message(Box::new(MessageTypes::Private(Box::new(private_message(
        42, "hello",
    )))));
    match route_event(event) {
        Dispatch::PrivateMessage(e) => {
            assert_eq!(e.0.user_id, 42);
            assert_eq!(e.0.raw_message, "hello");
        }
        _ => panic!("wrong dispatch"),
    }
}

#[test]
fn incoming_group_message_is_dispatched() {
    let event = NapcatEvent::Message(Box::new(MessageTypes::Group(Box::new(group_message(8)))));
    assert!(matches!(route_event(event), Dispatch::GroupMessage(e) if e.0.group_id == 8));
}

#[test]
fn own_messages_are_dispatched_as_sent() {
    let private = NapcatEvent::MessageSent(Box::new(MessageTypes::Private(Box::new(
        private_message(1, "x"),
    ))));
    assert!(matches!(route_event(private), Dispatch::PrivateMessageSent(e) if e.0.user_id == 1));
    let group = NapcatEvent::MessageSent(Box::new(MessageTypes::Group(Box::new(group_message(2)))));
    assert!(matches!(route_event(group), Dispatch::GroupMessageSent(e) if e.0.group_id == 2));
}

#[test]
fn meta_events_are_dispatched() {
    let lifecycle = NapcatEvent::Meta(Box::new(MetaEvent::Lifecycle(LifeCycleEvent {
        sub_type: LifeCycleSubType::Connect,
    })));
    assert!(matches!(
        route_event(lifecycle),
        Dispatch::Lifecycle(LifeCycleEvent { sub_type: LifeCycleSubType::Connect })
    ));
    let heartbeat = NapcatEvent::Meta(Box::new(MetaEvent::Heartbeat(HeartBeatEvent {
        status: HeartbeatStatus { online: Some(true), good: true },
        interval: 30000,
    })));
    assert!(matches!(route_event(heartbeat), Dispatch::Heartbeat(e) if e.interval == 30000));
}

#[test]
fn requests_and_notices_are_ignored() {
    assert!(matches!(route_event(NapcatEvent::Request), Dispatch::Ignored(IgnoredEvent::Request)));
    assert!(matches!(route_event(NapcatEvent::Notice), Dispatch::Ignored(IgnoredEvent::Notice)));
}

#[test]
fn failed_connection_waits_three_seconds() {
    assert_eq!(after_connect_attempt(true), ConnectionStep::Serve);
    assert_eq!(after_connect_attempt(false), ConnectionStep::RetryAfter(3));
    assert_eq!(RECONNECT_DELAY_SECS, 3);
}
