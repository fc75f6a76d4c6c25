use vstd::prelude::*;

use crate::actions::data::{GetLoginInfo, MessageSent};
use crate::actions::{ActionResponseInner, NapcatActionParams, NapcatActionResponse};
use crate::events::PrivateMessageEvent;

verus! {

/// Why a bot call did not produce the data it asked for.
#[derive(Debug, Clone, Copy, PartialEq, Eq)]
pub enum BotError {
    /// The action could not be handed to the adapter.
    ActionNotSent,
    /// The adapter dropped the request before an answer came.
    AnswerLost,
    /// The answer carried data of another action than the one requested.
    ResponseTypeMismatch,
}

/// The login information in an answer to `get_login_info`.
pub fn expect_login_info(response: NapcatActionResponse) -> (info: Result<GetLoginInfo, BotError>)
    ensures
        match response.data {
            ActionResponseInner::GetLoginInfo(data) => info == Ok::<GetLoginInfo, BotError>(data),
            _ => info == Err::<GetLoginInfo, BotError>(BotError::ResponseTypeMismatch),
        },
{
    match response.data {
        ActionResponseInner::GetLoginInfo(data) => Ok(data),
        _ => Err(BotError::ResponseTypeMismatch),
    }
}

/// The id of the new message in an answer to a send action.
pub fn expect_message_sent(response: NapcatActionResponse) -> (sent: Result<MessageSent, BotError>)
    ensures
        match response.data {
            ActionResponseInner::MessageSent(data) => sent == Ok::<MessageSent, BotError>(data),
            _ => sent == Err::<MessageSent, BotError>(BotError::ResponseTypeMismatch),
        },
{
    match response.data {
        ActionResponseInner::MessageSent(data) => Ok(data),
        _ => Err(BotError::ResponseTypeMismatch),
    }
}

/// The echo bot's answer to a private message: the same segments, sent back privately to
/// the user who wrote them.
pub fn echo_reply(event: PrivateMessageEvent) -> (action: NapcatActionParams)
    ensures
        action == (NapcatActionParams::SendPrivateMsg {
            user_id: event.0.user_id,
            message: event.0.message,
        }),
{
    let PrivateMessageEvent(message) = event;
    NapcatActionParams::SendPrivateMsg { user_id: message.user_id, message: message.message }
}

} // verus!
