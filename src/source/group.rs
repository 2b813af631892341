use vstd::prelude::*;

use super::message::Message;
use super::user::User;

verus! {

/// A group (a chat room, a channel, a guild) of a platform.
#[derive(Clone, Debug, PartialEq, Default)]
pub struct Group {
    pub id: String,
    pub profile: Option<GroupProfile>,
}

/// A group's public profile. The avatar is the text of its URI.
#[derive(Clone, Debug, PartialEq, Default)]
pub struct GroupProfile {
    pub name: Option<String>,
    pub avatar: Option<String>,
    pub member_count: Option<u64>,
}

/// An announcement posted in a group; `time` is in milliseconds since the
/// Unix epoch (UTC).
#[derive(Clone, Debug, PartialEq, Default)]
pub struct GroupAnnouncement {
    pub id: String,
    pub time: i64,
    pub title: String,
    pub content: String,
    pub author: User,
}

/// A message that a group has highlighted (pinned). Times are in
/// milliseconds since the Unix epoch (UTC).
#[derive(Clone, Debug, PartialEq, Default)]
pub struct GroupHighlight {
    pub id: String,
    pub sender: Option<User>,
    pub setter: Option<User>,
    pub send_time: Option<i64>,
    pub set_time: Option<i64>,
    pub title: Option<String>,
    pub message: Option<Message>,
}

} // verus!
