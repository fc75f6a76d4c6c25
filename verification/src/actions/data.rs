use vstd::prelude::*;

verus! {

/// The answer to `get_login_info`.
#[derive(Debug, Clone, PartialEq, Eq)]
pub struct GetLoginInfo {
    pub user_id: u32,
    pub nickname: String,
}

/// The answer to `get_group_info`.
#[derive(Debug, Clone, PartialEq, Eq)]
pub struct GetGroupInfo {
    pub group_all_shut: u32,
    pub group_remark: String,
    pub group_id: u32,
    pub group_name: String,
    pub member_count: u32,
    pub max_member_count: u32,
}

/// The answer to a send action: the id of the new message.
#[derive(Debug, Clone, Copy, PartialEq, Eq)]
pub struct MessageSent {
    pub message_id: u32,
}

} // verus!
