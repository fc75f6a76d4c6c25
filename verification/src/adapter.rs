use vstd::prelude::*;

use crate::actions::{AnswerReceiver, AnswerSender, NapcatActionResponse, NapcatClientAction};
use crate::events::{
    GroupMessageEvent, GroupMessageSentEvent, HeartBeatEvent, LifeCycleEvent, NapcatEvent,
    PrivateMessageEvent, PrivateMessageSentEvent,
};
use crate::models::{GroupMessage, MessageTypes, MetaEvent, PrivateMessage};
use crate::pending::PendingActions;

verus! {

/// A text frame of the NapCat websocket: either an event or the answer to an action.
#[derive(Debug, Clone)]
pub enum NapcatWebsocketFrame {
    Event(NapcatEvent),
    ActionResponse(NapcatActionResponse),
}

/// What the adapter does with a frame it has read.
pub enum FrameOutcome {
    /// Hand the event to the bot and wake it up.
    Forward(NapcatEvent),
    /// Send the answer on the channel of the request that waited for it.
    Deliver(AnswerSender, NapcatActionResponse),
    /// An answer that no pending request asked for; it is only reported.
    Unmatched(NapcatActionResponse),
}

/// How reading `frame` takes the pending requests from `before` to `after`, with
/// `outcome` as what is done with the frame.
pub open spec fn frame_effect(
    before: Map<Seq<char>, int>,
    frame: NapcatWebsocketFrame,
    after: Map<Seq<char>, int>,
    outcome: FrameOutcome,
) -> bool {
    match frame {
        NapcatWebsocketFrame::Event(event) => after == before && outcome == FrameOutcome::Forward(
            event,
        ),
        NapcatWebsocketFrame::ActionResponse(response) => {
            if before.contains_key(response.echo@) {
                &&& after == before.remove(response.echo@)
                &&& outcome matches FrameOutcome::Deliver(sender, answer)
                &&& sender.channel() == before[response.echo@]
                &&& answer == response
            } else {
                after == before && outcome == FrameOutcome::Unmatched(response)
            }
        },
    }
}

/// Decides what becomes of a frame read from NapCat: events go on to the bot, an answer
/// goes to the channel of the request with its echo, which then waits no more.
pub fn handle_frame(pending: &mut PendingActions, frame: NapcatWebsocketFrame) -> (outcome:
    FrameOutcome)
    ensures
        frame_effect(old(pending)@, frame, final(pending)@, outcome),
        frame matches NapcatWebsocketFrame::Event(event) ==> outcome == FrameOutcome::Forward(event)
            && final(pending)@ == old(pending)@,
        frame matches NapcatWebsocketFrame::ActionResponse(response) ==> {
            if old(pending)@.contains_key(response.echo@) {
                &&& outcome matches FrameOutcome::Deliver(sender, answer)
                &&& answer == response
                &&& sender.channel() == old(pending)@[response.echo@]
                &&& final(pending)@ == old(pending)@.remove(response.echo@)
            } else {
                outcome == FrameOutcome::Unmatched(response) && final(pending)@ == old(pending)@
            }
        },
{
    match frame {
        NapcatWebsocketFrame::Event(event) => FrameOutcome::Forward(event),
        NapcatWebsocketFrame::ActionResponse(response) => {
            match pending.remove(&response.echo) {
                Some(sender) => FrameOutcome::Deliver(sender, response),
                None => {
                    assert(old(pending)@.remove(response.echo@) =~= old(pending)@);
                    FrameOutcome::Unmatched(response)
                },
            }
        },
    }
}

/// What the adapter does with an action that the bot submitted.
pub enum SubmitOutcome {
    /// Send this text over the websocket; the request now waits for its answer.
    Transmit(String),
    /// The action could not be encoded: nothing is sent, and its sender is handed back.
    Abandon(AnswerSender),
}

/// How submitting `action`, encoded as `encoded` when that succeeded, takes the pending
/// requests from `before` to `after`, with `outcome` as what is done with it.
pub open spec fn submit_effect(
    before: Map<Seq<char>, int>,
    action: NapcatClientAction,
    encoded: Option<String>,
    after: Map<Seq<char>, int>,
    outcome: SubmitOutcome,
) -> bool {
    match encoded {
        Some(text) => {
            &&& after == before.insert(action.action.echo@, action.result_sender.channel())
            &&& outcome == SubmitOutcome::Transmit(text)
        },
        None => after == before && outcome == SubmitOutcome::Abandon(action.result_sender),
    }
}

/// Registers the sender of a submitted action under its request's echo when the request
/// could be encoded as `encoded`; then that text is to be sent.
pub fn submit_action(
    pending: &mut PendingActions,
    action: NapcatClientAction,
    encoded: Option<String>,
) -> (outcome: SubmitOutcome)
    ensures
        submit_effect(old(pending)@, action, encoded, final(pending)@, outcome),
        encoded matches Some(text) ==> outcome == SubmitOutcome::Transmit(text)
            && final(pending)@ == old(pending)@.insert(
            action.action.echo@,
            action.result_sender.channel(),
        ),
        encoded is None ==> outcome == SubmitOutcome::Abandon(action.result_sender)
            && final(pending)@ == old(pending)@,
{
    let NapcatClientAction { result_sender, action: request } = action;
    match encoded {
        Some(text) => {
            pending.insert(request.echo, result_sender);
            SubmitOutcome::Transmit(text)
        },
        None => SubmitOutcome::Abandon(result_sender),
    }
}

/// The answer to a submitted action is sent on the channel whose receiver the submitter
/// kept, and afterwards the pending requests are as before, less that echo.
pub proof fn lemma_answer_reaches_receiver(
    before: Map<Seq<char>, int>,
    action: NapcatClientAction,
    receiver: AnswerReceiver,
    text: String,
    response: NapcatActionResponse,
    after_submit: Map<Seq<char>, int>,
    submitted: SubmitOutcome,
    after_answer: Map<Seq<char>, int>,
    answered: FrameOutcome,
)
    requires
        action.result_sender.channel() == receiver.channel(),
        response.echo@ == action.action.echo@,
        submit_effect(before, action, Some(text), after_submit, submitted),
        frame_effect(
            after_submit,
            NapcatWebsocketFrame::ActionResponse(response),
            after_answer,
            answered,
        ),
    ensures
        answered matches FrameOutcome::Deliver(sender, answer) && sender.channel()
            == receiver.channel() && answer == response,
        after_answer == before.remove(action.action.echo@),
{
    assert(before.insert(action.action.echo@, action.result_sender.channel()).remove(
        action.action.echo@,
    ) =~= before.remove(action.action.echo@));
}

/// An answer is delivered at most once: a second answer with the same echo finds nobody
/// waiting and changes nothing.
pub proof fn lemma_answer_delivered_once(
    before: Map<Seq<char>, int>,
    first: NapcatActionResponse,
    after_first: Map<Seq<char>, int>,
    first_outcome: FrameOutcome,
    second: NapcatActionResponse,
    after_second: Map<Seq<char>, int>,
    second_outcome: FrameOutcome,
)
    requires
        second.echo@ == first.echo@,
        frame_effect(
            before,
            NapcatWebsocketFrame::ActionResponse(first),
            after_first,
            first_outcome,
        ),
        frame_effect(
            after_first,
            NapcatWebsocketFrame::ActionResponse(second),
            after_second,
            second_outcome,
        ),
    ensures
        second_outcome == FrameOutcome::Unmatched(second),
        after_second == after_first,
{
}

/// An answer with another echo leaves a submitted request waiting, on the same channel.
pub proof fn lemma_other_answers_keep_request_pending(
    before: Map<Seq<char>, int>,
    action: NapcatClientAction,
    text: String,
    response: NapcatActionResponse,
    after_submit: Map<Seq<char>, int>,
    submitted: SubmitOutcome,
    after_answer: Map<Seq<char>, int>,
    answered: FrameOutcome,
)
    requires
        response.echo@ != action.action.echo@,
        submit_effect(before, action, Some(text), after_submit, submitted),
        frame_effect(
            after_submit,
            NapcatWebsocketFrame::ActionResponse(response),
            after_answer,
            answered,
        ),
    ensures
        after_answer.contains_key(action.action.echo@),
        after_answer[action.action.echo@] == action.result_sender.channel(),
{
}

/// Events never change which requests are pending.
pub proof fn lemma_events_keep_pending(
    before: Map<Seq<char>, int>,
    event: NapcatEvent,
    after: Map<Seq<char>, int>,
    outcome: FrameOutcome,
)
    requires
        frame_effect(before, NapcatWebsocketFrame::Event(event), after, outcome),
    ensures
        after == before,
{
}

/// An event frame is forwarded to the bot as exactly the event that was read: an incoming
/// message stays an incoming message, and nothing in it is altered.
pub proof fn lemma_events_forwarded_unchanged(
    before: Map<Seq<char>, int>,
    event: NapcatEvent,
    after: Map<Seq<char>, int>,
    outcome: FrameOutcome,
)
    requires
        frame_effect(before, NapcatWebsocketFrame::Event(event), after, outcome),
    ensures
        outcome == FrameOutcome::Forward(event),
        after == before,
{
}

/// The answer handed to a waiting request is exactly the answer that was read.
pub proof fn lemma_answer_delivered_unchanged(
    before: Map<Seq<char>, int>,
    response: NapcatActionResponse,
    after: Map<Seq<char>, int>,
    outcome: FrameOutcome,
)
    requires
        frame_effect(before, NapcatWebsocketFrame::ActionResponse(response), after, outcome),
    ensures
        outcome matches FrameOutcome::Deliver(_, answer) ==> answer == response,
        outcome matches FrameOutcome::Unmatched(answer) ==> answer == response,
        !(outcome is Forward),
{
}

/// The text sent for an encoded action is its whole encoding, unchanged, and the request
/// then waits under its echo on its own channel.
pub proof fn lemma_submitted_text_is_whole_encoding(
    before: Map<Seq<char>, int>,
    action: NapcatClientAction,
    text: String,
    after: Map<Seq<char>, int>,
    outcome: SubmitOutcome,
)
    requires
        submit_effect(before, action, Some(text), after, outcome),
    ensures
        outcome == SubmitOutcome::Transmit(text),
        outcome matches SubmitOutcome::Transmit(sent) && sent@ == text@,
        after.contains_key(action.action.echo@),
        after[action.action.echo@] == action.result_sender.channel(),
{
}

/// An action that could not be encoded sends nothing and leaves the pending requests alone;
/// its sender comes back.
pub proof fn lemma_unencoded_action_abandoned(
    before: Map<Seq<char>, int>,
    action: NapcatClientAction,
    after: Map<Seq<char>, int>,
    outcome: SubmitOutcome,
)
    requires
        submit_effect(before, action, None, after, outcome),
    ensures
        outcome == SubmitOutcome::Abandon(action.result_sender),
        after == before,
{
}

/// A NapCat event kind that the bot does not act on.
#[derive(Debug, Clone, Copy, PartialEq, Eq)]
pub enum IgnoredEvent {
    Request,
    Notice,
}

/// The bot-level event that a NapCat event is turned into.
#[derive(Debug, Clone)]
pub enum Dispatch {
    PrivateMessage(PrivateMessageEvent),
    GroupMessage(GroupMessageEvent),
    PrivateMessageSent(PrivateMessageSentEvent),
    GroupMessageSent(GroupMessageSentEvent),
    Lifecycle(LifeCycleEvent),
    Heartbeat(HeartBeatEvent),
    Ignored(IgnoredEvent),
}

/// Which bot-level event a NapCat event becomes.
pub open spec fn dispatch_of(event: NapcatEvent) -> Dispatch {
    match event {
        NapcatEvent::Message(message) => match *message {
            MessageTypes::Private(m) => Dispatch::PrivateMessage(PrivateMessageEvent(*m)),
            MessageTypes::Group(m) => Dispatch::GroupMessage(GroupMessageEvent(*m)),
        },
        NapcatEvent::Meta(meta) => match *meta {
            MetaEvent::Lifecycle(e) => Dispatch::Lifecycle(e),
            MetaEvent::Heartbeat(e) => Dispatch::Heartbeat(e),
        },
        NapcatEvent::Request => Dispatch::Ignored(IgnoredEvent::Request),
        NapcatEvent::Notice => Dispatch::Ignored(IgnoredEvent::Notice),
        NapcatEvent::MessageSent(message) => match *message {
            MessageTypes::Private(m) => Dispatch::PrivateMessageSent(PrivateMessageSentEvent(*m)),
            MessageTypes::Group(m) => Dispatch::GroupMessageSent(GroupMessageSentEvent(*m)),
        },
    }
}

/// Turns a NapCat event into the bot-level event that is triggered for it.
pub fn route_event(event: NapcatEvent) -> (dispatch: Dispatch)
    ensures
        dispatch == dispatch_of(event),
        event matches NapcatEvent::Message(message) ==> match *message {
            MessageTypes::Private(m) => dispatch == Dispatch::PrivateMessage(PrivateMessageEvent(*m)),
            MessageTypes::Group(m) => dispatch == Dispatch::GroupMessage(GroupMessageEvent(*m)),
        },
        event matches NapcatEvent::MessageSent(message) ==> match *message {
            MessageTypes::Private(m) => dispatch == Dispatch::PrivateMessageSent(
                PrivateMessageSentEvent(*m),
            ),
            MessageTypes::Group(m) => dispatch == Dispatch::GroupMessageSent(
                GroupMessageSentEvent(*m),
            ),
        },
        event matches NapcatEvent::Meta(meta) ==> match *meta {
            MetaEvent::Lifecycle(e) => dispatch == Dispatch::Lifecycle(e),
            MetaEvent::Heartbeat(e) => dispatch == Dispatch::Heartbeat(e),
        },
        event is Request ==> dispatch == Dispatch::Ignored(IgnoredEvent::Request),
        event is Notice ==> dispatch == Dispatch::Ignored(IgnoredEvent::Notice),
{
    match event {
        NapcatEvent::Message(message) => match *message {
            MessageTypes::Private(m) => Dispatch::PrivateMessage(PrivateMessageEvent(*m)),
            MessageTypes::Group(m) => Dispatch::GroupMessage(GroupMessageEvent(*m)),
        },
        NapcatEvent::Meta(meta) => match *meta {
            MetaEvent::Lifecycle(e) => Dispatch::Lifecycle(e),
            MetaEvent::Heartbeat(e) => Dispatch::Heartbeat(e),
        },
        NapcatEvent::Request => Dispatch::Ignored(IgnoredEvent::Request),
        NapcatEvent::Notice => Dispatch::Ignored(IgnoredEvent::Notice),
        NapcatEvent::MessageSent(message) => match *message {
            MessageTypes::Private(m) => Dispatch::PrivateMessageSent(PrivateMessageSentEvent(*m)),
            MessageTypes::Group(m) => Dispatch::GroupMessageSent(GroupMessageSentEvent(*m)),
        },
    }
}

/// Messages that the bot itself sent are never dispatched as messages addressed to it.
pub proof fn lemma_own_messages_not_incoming(event: NapcatEvent)
    requires
        event is MessageSent,
    ensures
        !(dispatch_of(event) is PrivateMessage),
        !(dispatch_of(event) is GroupMessage),
{
}

/// Only a private message addressed to the bot is dispatched as one, and it carries that
/// very message.
pub proof fn lemma_private_dispatch_is_incoming(event: NapcatEvent)
    requires
        dispatch_of(event) is PrivateMessage,
    ensures
        event is Message,
        *event->Message_0 == MessageTypes::Private(Box::new(dispatch_of(event)->PrivateMessage_0.0)),
{
}

/// A heartbeat is dispatched as the very heartbeat read: same status, same interval.
pub proof fn lemma_heartbeat_dispatched_unchanged(heartbeat: HeartBeatEvent)
    ensures
        dispatch_of(NapcatEvent::Meta(Box::new(MetaEvent::Heartbeat(heartbeat))))
            == Dispatch::Heartbeat(heartbeat),
{
}

/// A lifecycle event is dispatched as the very lifecycle event read, with the same
/// sub-type.
pub proof fn lemma_lifecycle_dispatched_unchanged(lifecycle: LifeCycleEvent)
    ensures
        dispatch_of(NapcatEvent::Meta(Box::new(MetaEvent::Lifecycle(lifecycle))))
            == Dispatch::Lifecycle(lifecycle),
{
}

/// Messages addressed to the bot are dispatched as incoming messages carrying the message
/// read; messages the bot sent are dispatched as sent messages carrying the message read.
pub proof fn lemma_messages_dispatched_unchanged(private: PrivateMessage, group: GroupMessage)
    ensures
        dispatch_of(NapcatEvent::Message(Box::new(MessageTypes::Private(Box::new(private)))))
            == Dispatch::PrivateMessage(PrivateMessageEvent(private)),
        dispatch_of(NapcatEvent::Message(Box::new(MessageTypes::Group(Box::new(group)))))
            == Dispatch::GroupMessage(GroupMessageEvent(group)),
        dispatch_of(NapcatEvent::MessageSent(Box::new(MessageTypes::Private(Box::new(private)))))
            == Dispatch::PrivateMessageSent(PrivateMessageSentEvent(private)),
        dispatch_of(NapcatEvent::MessageSent(Box::new(MessageTypes::Group(Box::new(group)))))
            == Dispatch::GroupMessageSent(GroupMessageSentEvent(group)),
{
}

/// Requests and notices are ignored, each reported as what it is.
pub proof fn lemma_requests_and_notices_ignored()
    ensures
        dispatch_of(NapcatEvent::Request) == Dispatch::Ignored(IgnoredEvent::Request),
        dispatch_of(NapcatEvent::Notice) == Dispatch::Ignored(IgnoredEvent::Notice),
{
}

/// Seconds to wait before connecting again after a failed attempt.
pub const RECONNECT_DELAY_SECS: u64 = 3;

/// What the adapter's connection loop does after trying to connect.
#[derive(Debug, Clone, Copy, PartialEq, Eq)]
pub enum ConnectionStep {
    /// Serve the connection until it ends, then connect again.
    Serve,
    /// Wait this many seconds, then try again.
    RetryAfter(u64),
}

/// The connection loop's decision after an attempt to connect.
pub fn after_connect_attempt(connected: bool) -> (step: ConnectionStep)
    ensures
        connected ==> step == ConnectionStep::Serve,
        !connected ==> step == ConnectionStep::RetryAfter(RECONNECT_DELAY_SECS),
        !connected ==> step == ConnectionStep::RetryAfter(3),
{
    if connected {
        ConnectionStep::Serve
    } else {
        ConnectionStep::RetryAfter(RECONNECT_DELAY_SECS)
    }
}

} // verus!
