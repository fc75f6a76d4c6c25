use vstd::prelude::*;

use crate::events::{HeartBeatEvent, LifeCycleEvent};

verus! {

/// A chat message as NapCat reports it, told apart by its `message_type`.
#[derive(Debug, Clone)]
pub enum MessageTypes {
    Private(Box<PrivateMessage>),
    Group(Box<GroupMessage>),
}

/// What happened to the bot's lifecycle.
#[derive(Debug, Clone, PartialEq, Eq)]
pub enum LifeCycleSubType {
    Enable,
    Disable,
    Connect,
}

/// The health report carried by a heartbeat.
#[derive(Debug, Clone, PartialEq, Eq)]
pub struct HeartbeatStatus {
    pub online: Option<bool>,
    pub good: bool,
}

/// A meta event, told apart by its `meta_event_type`.
#[derive(Debug, Clone)]
pub enum MetaEvent {
    Lifecycle(LifeCycleEvent),
    Heartbeat(HeartBeatEvent),
}

/// The author of a private message.
#[derive(Debug, Clone, PartialEq, Eq)]
pub struct PrivateMessageSender {
    card: String,
    nickname: String,
    user_id: u32,
}

impl PrivateMessageSender {
    /// The author's group card (display name override), possibly empty.
    pub closed spec fn spec_card(&self) -> Seq<char> {
        self.card@
    }

    /// The author's nickname.
    pub closed spec fn spec_nickname(&self) -> Seq<char> {
        self.nickname@
    }

    /// The author's account number.
    pub closed spec fn spec_user_id(&self) -> u32 {
        self.user_id
    }

    /// The author with this card, nickname and account number.
    pub fn new(card: String, nickname: String, user_id: u32) -> (sender: Self)
        ensures
            sender.spec_card() == card@,
            sender.spec_nickname() == nickname@,
            sender.spec_user_id() == user_id,
    {
        PrivateMessageSender { card, nickname, user_id }
    }

    /// The author's group card.
    pub fn card(&self) -> (card: &String)
        ensures
            card@ == self.spec_card(),
    {
        &self.card
    }

    /// The author's nickname.
    pub fn nickname(&self) -> (nickname: &String)
        ensures
            nickname@ == self.spec_nickname(),
    {
        &self.nickname
    }

    /// The author's account number.
    pub fn user_id(&self) -> (user_id: u32)
        ensures
            user_id == self.spec_user_id(),
    {
        self.user_id
    }
}

/// One piece of a message in array format.
#[derive(Debug, Clone, PartialEq, Eq)]
pub enum MessageSegment {
    Face { id: String },
    Text { text: String },
}

/// How the `message` field of an event is encoded.
#[derive(Debug, Clone, PartialEq, Eq)]
pub enum MessageFormat {
    String,
    Array,
}

/// Whether a message was sent in a group or privately.
#[derive(Debug, Clone, PartialEq, Eq)]
pub enum MessageType {
    Group,
    Private,
}

/// The author of a group message.
#[derive(Debug, Clone, PartialEq, Eq)]
pub struct GroupMessageSender {
    user_id: u32,
    nickname: String,
    card: String,
    role: String,
}

impl GroupMessageSender {
    /// The author's account number.
    pub closed spec fn spec_user_id(&self) -> u32 {
        self.user_id
    }

    /// The author's nickname.
    pub closed spec fn spec_nickname(&self) -> Seq<char> {
        self.nickname@
    }

    /// The author's group card, possibly empty.
    pub closed spec fn spec_card(&self) -> Seq<char> {
        self.card@
    }

    /// The author's role in the group.
    pub closed spec fn spec_role(&self) -> Seq<char> {
        self.role@
    }

    /// The author with this account number, nickname, card and role.
    pub fn new(user_id: u32, nickname: String, card: String, role: String) -> (sender: Self)
        ensures
            sender.spec_user_id() == user_id,
            sender.spec_nickname() == nickname@,
            sender.spec_card() == card@,
            sender.spec_role() == role@,
    {
        GroupMessageSender { user_id, nickname, card, role }
    }

    /// The author's account number.
    pub fn user_id(&self) -> (user_id: u32)
        ensures
            user_id == self.spec_user_id(),
    {
        self.user_id
    }

    /// The author's nickname.
    pub fn nickname(&self) -> (nickname: &String)
        ensures
            nickname@ == self.spec_nickname(),
    {
        &self.nickname
    }

    /// The author's group card.
    pub fn card(&self) -> (card: &String)
        ensures
            card@ == self.spec_card(),
    {
        &self.card
    }

    /// The author's role in the group.
    pub fn role(&self) -> (role: &String)
        ensures
            role@ == self.spec_role(),
    {
        &self.role
    }
}

/// A message posted in a group.
#[derive(Debug, Clone)]
pub struct GroupMessage {
    pub echo: Option<String>,
    pub time: u32,
    pub self_id: u32,
    pub real_id: u32,
    pub real_seq: String,
    pub sender: GroupMessageSender,
    pub raw_message: String,
    pub font: u16,
    pub sub_type: String,
    pub message: Vec<MessageSegment>,
    pub message_format: MessageFormat,
    pub group_id: u32,
    pub group_name: String,
}

/// A message received in a private chat.
#[derive(Debug, Clone)]
pub struct PrivateMessage {
    pub echo: Option<String>,
    pub time: u32,
    pub self_id: u32,
    pub font: u16,
    pub message: Vec<MessageSegment>,
    pub message_format: MessageFormat,
    pub message_id: u32,
    pub message_seq: u32,
    pub raw_message: String,
    pub real_id: u32,
    pub real_seq: String,
    pub sender: PrivateMessageSender,
    pub sub_type: String,
    pub target_id: u32,
    pub user_id: u32,
}

} // verus!
