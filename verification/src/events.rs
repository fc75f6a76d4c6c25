use vstd::prelude::*;

use crate::models::{
    GroupMessage, HeartbeatStatus, LifeCycleSubType, MessageTypes, MetaEvent, PrivateMessage,
};

verus! {

/// Everything NapCat pushes that is not an answer to a request, told apart by `post_type`.
#[derive(Debug, Clone)]
pub enum NapcatEvent {
    Message(Box<MessageTypes>),
    Meta(Box<MetaEvent>),
    Request,
    Notice,
    MessageSent(Box<MessageTypes>),
}

/// A group message addressed to the bot.
#[derive(Debug, Clone)]
pub struct GroupMessageEvent(pub GroupMessage);

/// A private message addressed to the bot.
#[derive(Debug, Clone)]
pub struct PrivateMessageEvent(pub PrivateMessage);

/// A group message that the bot itself sent.
#[derive(Debug, Clone)]
pub struct GroupMessageSentEvent(pub GroupMessage);

/// A private message that the bot itself sent.
#[derive(Debug, Clone)]
pub struct PrivateMessageSentEvent(pub PrivateMessage);

/// The bot was enabled, disabled or connected.
#[derive(Debug, Clone)]
pub struct LifeCycleEvent {
    pub sub_type: LifeCycleSubType,
}

/// A periodic health report.
#[derive(Debug, Clone)]
pub struct HeartBeatEvent {
    pub status: HeartbeatStatus,
    pub interval: u32,
}

} // verus!
