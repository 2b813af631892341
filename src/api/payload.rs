use vstd::prelude::*;

use crate::source::message::MessageSegment;

verus! {

#[derive(Clone, Copy, Debug, PartialEq, Eq, Structural)]
pub enum GroupMuteType {
    Mute,
    Unmute,
}

/// Where a message goes: a group, or a user in private.
#[derive(Clone, Debug, PartialEq, Eq)]
pub enum SendMessageTarget {
    Group(String),
    Private(String),
}

#[derive(Clone, Copy, Debug, PartialEq, Eq, Structural)]
pub enum GroupAdminChangeType {
    Grant,
    Revoke,
}

/// The answer to a pending friend, join or invite request.
#[derive(Clone, Copy, Debug, PartialEq, Eq, Structural)]
pub enum RequestResponse {
    Approve,
    Reject,
}

/// A message to send, and where it goes.
#[derive(Clone, Debug, PartialEq)]
pub struct SendRequest {
    pub message: Vec<MessageSegment>,
    pub target: SendMessageTarget,
}

/// Which kind of pending request an answer is for.
#[derive(Clone, Copy, Debug, PartialEq, Eq, Structural)]
pub enum RequestKind {
    AddFriend,
    AddGroup,
    InviteGroup,
}

/// An answer to a pending request, by the request's id.
#[derive(Clone, Debug, PartialEq, Eq)]
pub struct RequestAnswer {
    pub kind: RequestKind,
    pub id: String,
    pub response: RequestResponse,
}

/// A reaction to set on a message.
#[derive(Clone, Debug, PartialEq, Eq)]
pub struct ReactionRequest {
    pub message_id: String,
    pub reaction_id: String,
}

/// Why no outbound target could be found for an event.
#[derive(Clone, Copy, Debug, PartialEq, Eq, Structural)]
pub enum TargetError {
    /// The whole group is muted.
    GroupMuted,
    /// The event names neither a group nor a user.
    UnknownUser,
    /// The kind of event has no place to reply to.
    Unsupported,
    /// The event carries no message.
    NoMessage,
}

} // verus!
