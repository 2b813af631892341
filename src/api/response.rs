use vstd::prelude::*;

use crate::source::group::{Group, GroupProfile};
use crate::source::message::{FsNode, MessageSegment};
use crate::source::user::{User, UserProfile};

verus! {

#[derive(Clone, Debug, PartialEq, Eq)]
pub struct SendMessageResponse {
    pub sent_message_id: String,
}

/// A message's details; `time` is in milliseconds since the Unix epoch (UTC).
#[derive(Clone, Debug)]
pub struct GetMessageDetailResponse {
    pub message: Vec<MessageSegment>,
    pub sender: Option<User>,
    pub time: Option<i64>,
}

#[derive(Clone, Debug)]
pub struct GroupMemberListResponse {
    pub members: Vec<User>,
}

#[derive(Clone, Debug)]
pub struct GroupGetProfileResponse {
    pub profile: GroupProfile,
}

#[derive(Clone, Copy, Debug, PartialEq, Eq, Structural)]
pub struct GroupGetFileCountResponse {
    pub count: u64,
}

#[derive(Clone, Debug)]
pub struct GroupGetFsListResponse {
    pub fs_tree: Vec<FsNode>,
}

#[derive(Clone, Debug)]
pub struct UserGetProfileResponse {
    pub profile: UserProfile,
}

#[derive(Clone, Debug)]
pub struct BotGetProfileResponse {
    pub profile: User,
}

#[derive(Clone, Debug)]
pub struct BotGetFriendListResponse {
    pub friends: Vec<User>,
}

#[derive(Clone, Debug)]
pub struct BotGetGroupListResponse {
    pub groups: Vec<Group>,
}

} // verus!
