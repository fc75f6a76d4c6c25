use vstd::prelude::*;

use crate::models::MessageSegment;

pub mod data;

verus! {

/// An action the bot asks NapCat to perform, with its parameters.
#[derive(Debug, Clone)]
pub enum NapcatActionParams {
    GetLoginInfo,
    GetGroupInfo { group_id: u32 },
    SendPrivateMsg { user_id: u32, message: Vec<MessageSegment> },
    SendGroupMsg { group_id: u32, message: Vec<MessageSegment> },
}

/// An action together with the `echo` that NapCat repeats in its answer.
#[derive(Debug, Clone)]
pub struct NapcatActionRequest {
    pub action: NapcatActionParams,
    pub echo: String,
}

/// The payload of an answer; which variant it is depends on the action.
#[derive(Debug, Clone)]
pub enum ActionResponseInner {
    GetLoginInfo(data::GetLoginInfo),
    GetGroupInfo(data::GetGroupInfo),
    MessageSent(data::MessageSent),
}

/// NapCat's answer to an action.
#[derive(Debug, Clone)]
pub struct NapcatActionResponse {
    pub status: String,
    pub retcode: u32,
    pub data: ActionResponseInner,
    pub message: String,
    pub wording: String,
    pub echo: String,
    pub stream: String,
}

/// Whether `c` is one of the digits or lower-case letters used in hexadecimal.
pub open spec fn is_lower_hex_digit(c: char) -> bool {
    ('0' <= c && c <= '9') || ('a' <= c && c <= 'f')
}

/// Whether `s` is a random (version 4) UUID in lower-case hyphenated form, such as
/// `67e55044-10b1-426f-9247-bb680e5fe0c8`.
pub open spec fn is_uuid_v4_text(s: Seq<char>) -> bool {
    &&& s.len() == 36
    &&& forall|i: int|
        0 <= i < 36 ==> if i == 8 || i == 13 || i == 18 || i == 23 {
            #[trigger] s[i] == '-'
        } else {
            is_lower_hex_digit(s[i])
        }
    &&& s[14] == '4'
    &&& (s[19] == '8' || s[19] == '9' || s[19] == 'a' || s[19] == 'b')
}

#[verifier::external_type_specification]
#[verifier::external_body]
#[verifier::reject_recursive_types(T)]
pub struct ExOneshotSender<T>(tokio::sync::oneshot::Sender<T>);

#[verifier::external_type_specification]
#[verifier::external_body]
#[verifier::reject_recursive_types(T)]
pub struct ExOneshotReceiver<T>(tokio::sync::oneshot::Receiver<T>);

/// Declared because Verus reads the `Future` impl of the receiver declared above, whose
/// output names this error type; the library itself never handles one.
#[verifier::external_type_specification]
#[verifier::external_body]
pub struct ExOneshotRecvError(tokio::sync::oneshot::error::RecvError);

/// A fresh echo: `uuid::Uuid::new_v4` converted into a `String`. The uuid crate draws the
/// value at random, sets the version nibble to 4 and the variant bits to RFC 4122, and
/// writes it in lower-case hyphenated form; that shape is all that is claimed, not which
/// value comes out nor that two calls differ.
#[verifier::external_body]
fn fresh_echo() -> (echo: String)
    ensures
        is_uuid_v4_text(echo@),
{
    uuid::Uuid::new_v4().into()
}

/// The sending end of the channel on which the answer to one request travels.
pub struct AnswerSender {
    sender: tokio::sync::oneshot::Sender<NapcatActionResponse>,
    channel: Ghost<int>,
}

/// The receiving end of the channel on which the answer to one request travels.
pub struct AnswerReceiver {
    receiver: tokio::sync::oneshot::Receiver<NapcatActionResponse>,
    channel: Ghost<int>,
}

impl AnswerSender {
    /// Which channel this end belongs to: an answer sent here is received by the
    /// receiver of the same channel.
    pub closed spec fn channel(&self) -> int {
        self.channel@
    }

    /// The tokio sender itself, to send the answer or to wait until the receiver is gone.
    pub fn into_inner(self) -> tokio::sync::oneshot::Sender<NapcatActionResponse> {
        self.sender
    }
}

impl AnswerReceiver {
    /// Which channel this end belongs to.
    pub closed spec fn channel(&self) -> int {
        self.channel@
    }

    /// The tokio receiver itself, to wait for the answer.
    pub fn into_inner(self) -> tokio::sync::oneshot::Receiver<NapcatActionResponse> {
        self.receiver
    }
}

/// A one-shot channel for the answer to one request: `tokio::sync::oneshot::channel`,
/// whose documentation says that the two ends it returns belong to one channel: a value
/// sent on the sender is what the receiver yields, and the receiver yields an error when
/// the sender is dropped unsent. The contract records that pairing by giving both ends
/// the same channel.
#[verifier::external_body]
fn answer_channel() -> (ends: (AnswerSender, AnswerReceiver))
    ensures
        ends.0.channel() == ends.1.channel(),
{
    let (sender, receiver) = tokio::sync::oneshot::channel();
    (AnswerSender { sender, channel: Ghost(0int) }, AnswerReceiver { receiver, channel: Ghost(0int) })
}

/// An action on its way to the adapter, with the sender through which its answer returns.
pub struct NapcatClientAction {
    pub result_sender: AnswerSender,
    pub action: NapcatActionRequest,
}

impl NapcatActionRequest {
    /// Wraps `action` in a request with a fresh echo, and opens the channel on which its
    /// answer will come back: the sender goes with the request, the receiver to the caller.
    pub fn create_context(action: NapcatActionParams) -> (context: (NapcatClientAction, AnswerReceiver))
        ensures
            context.0.action.action == action,
            is_uuid_v4_text(context.0.action.echo@),
            context.0.result_sender.channel() == context.1.channel(),
    {
        let (tx, rx) = answer_channel();
        let request = NapcatActionRequest { echo: fresh_echo(), action };
        (NapcatClientAction { result_sender: tx, action: request }, rx)
    }
}

} // verus!
