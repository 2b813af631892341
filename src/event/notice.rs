use vstd::prelude::*;

use crate::api::payload::{SendMessageTarget, SendRequest, TargetError};
use crate::source::group::Group;
use crate::source::message::{Message, MessageSegment};
use crate::source::user::User;

verus! {

/// Something that happened to a group, a member or a message.
#[derive(Clone, Debug, PartialEq)]
pub enum NoticeEvent {
    GroupMemberIncreseEvent(GroupMemberIncreseEvent),
    GroupMemberDecreaseEvent(GroupMemberDecreaseEvent),
    GroupAdminChangeEvent(GroupAdminChangeEvent),
    GroupMuteChangeEvent(GroupMuteChangeEvent),
    GroupMemberMuteChangeEvent(GroupMemberMuteChangeEvent),
    GroupHightLightChangeEvent(GroupHightLightChangeEvent),
    GroupMemberAliasChangeEvent(GroupMemberAliasChangeEvent),
    MessageReactionsEvent(MessageReactionsEvent),
    MessageDeletedEvent(MessageDeletedEvent),
    MessageEditedEvent(MessageEditedEvent),
}

/// Where an answer to a notice goes. A notice about a group goes to the
/// group, unless the whole group has just been muted; one about a message
/// goes to the message's group, else to its user.
pub open spec fn notice_target(n: NoticeEvent) -> Result<SendMessageTarget, TargetError> {
    match n {
        NoticeEvent::GroupAdminChangeEvent(e) => Ok(SendMessageTarget::Group(e.group.id)),
        NoticeEvent::GroupHightLightChangeEvent(e) => Ok(SendMessageTarget::Group(e.group.id)),
        NoticeEvent::GroupMemberAliasChangeEvent(e) => Ok(SendMessageTarget::Group(e.group.id)),
        NoticeEvent::GroupMemberIncreseEvent(e) => Ok(SendMessageTarget::Group(e.group.id)),
        NoticeEvent::GroupMemberDecreaseEvent(e) => Ok(SendMessageTarget::Group(e.group.id)),
        NoticeEvent::GroupMemberMuteChangeEvent(e) => Ok(SendMessageTarget::Group(e.group.id)),
        NoticeEvent::MessageEditedEvent(e) => match e.group {
            Some(g) => Ok(SendMessageTarget::Group(g.id)),
            None => Ok(SendMessageTarget::Private(e.user.id)),
        },
        NoticeEvent::MessageReactionsEvent(e) => match e.group {
            Some(g) => Ok(SendMessageTarget::Group(g.id)),
            None => Ok(SendMessageTarget::Private(e.user.id)),
        },
        NoticeEvent::GroupMuteChangeEvent(e) => if e.kind is Mute {
            Err(TargetError::GroupMuted)
        } else {
            Ok(SendMessageTarget::Group(e.group.id))
        },
        NoticeEvent::MessageDeletedEvent(e) => match (e.group, e.user) {
            (Some(g), _) => Ok(SendMessageTarget::Group(g.id)),
            (None, Some(u)) => Ok(SendMessageTarget::Private(u.id)),
            (None, None) => Err(TargetError::UnknownUser),
        },
    }
}

/// The request for `message` to the notice's target, or why there is none.
pub open spec fn notice_request(n: NoticeEvent, message: Vec<MessageSegment>) -> Result<
    SendRequest,
    TargetError,
> {
    match notice_target(n) {
        Ok(target) => Ok(SendRequest { message, target }),
        Err(e) => Err(e),
    }
}

impl NoticeEvent {
    /// The target that an answer to the notice goes to.
    pub fn target(&self) -> (r: Result<SendMessageTarget, TargetError>)
        ensures
            r == notice_target(*self),
    {
        match self {
            NoticeEvent::GroupAdminChangeEvent(e) => Ok(SendMessageTarget::Group(e.group.id.clone())),
            NoticeEvent::GroupHightLightChangeEvent(e) => Ok(
                SendMessageTarget::Group(e.group.id.clone()),
            ),
            NoticeEvent::GroupMemberAliasChangeEvent(e) => Ok(
                SendMessageTarget::Group(e.group.id.clone()),
            ),
            NoticeEvent::GroupMemberIncreseEvent(e) => Ok(
                SendMessageTarget::Group(e.group.id.clone()),
            ),
            NoticeEvent::GroupMemberDecreaseEvent(e) => Ok(
                SendMessageTarget::Group(e.group.id.clone()),
            ),
            NoticeEvent::GroupMemberMuteChangeEvent(e) => Ok(
                SendMessageTarget::Group(e.group.id.clone()),
            ),
            NoticeEvent::MessageEditedEvent(e) => match &e.group {
                Some(g) => Ok(SendMessageTarget::Group(g.id.clone())),
                None => Ok(SendMessageTarget::Private(e.user.id.clone())),
            },
            NoticeEvent::MessageReactionsEvent(e) => match &e.group {
                Some(g) => Ok(SendMessageTarget::Group(g.id.clone())),
                None => Ok(SendMessageTarget::Private(e.user.id.clone())),
            },
            NoticeEvent::GroupMuteChangeEvent(e) => match e.kind {
                MuteType::Mute { .. } => Err(TargetError::GroupMuted),
                _ => Ok(SendMessageTarget::Group(e.group.id.clone())),
            },
            NoticeEvent::MessageDeletedEvent(e) => match (&e.group, &e.user) {
                (Some(g), _) => Ok(SendMessageTarget::Group(g.id.clone())),
                (None, Some(u)) => Ok(SendMessageTarget::Private(u.id.clone())),
                (None, None) => Err(TargetError::UnknownUser),
            },
        }
    }

    /// The request that answers the notice with `message`, or why no answer
    /// can be sent.
    pub fn send_message(&self, message: Vec<MessageSegment>) -> (r: Result<
        SendRequest,
        TargetError,
    >)
        ensures
            r == notice_request(*self, message),
    {
        match self.target() {
            Ok(target) => Ok(SendRequest { message, target }),
            Err(e) => Err(e),
        }
    }
}

#[derive(Clone, Debug, PartialEq)]
pub struct GroupMemberIncreseEvent {
    pub group: Group,
    pub user: User,
    pub reason: GroupMemberIncreseReason,
}

#[derive(Clone, Debug, PartialEq)]
pub struct GroupMemberDecreaseEvent {
    pub group: Group,
    pub user: User,
    pub reason: GroupMemberDecreaseReason,
}

#[derive(Clone, Debug, PartialEq)]
pub struct GroupAdminChangeEvent {
    pub group: Group,
    pub user: User,
    pub kind: GroupAdminChangeType,
}

#[derive(Clone, Debug, PartialEq)]
pub struct GroupMuteChangeEvent {
    pub group: Group,
    pub operator: Option<User>,
    pub kind: MuteType,
}

#[derive(Clone, Debug, PartialEq)]
pub struct GroupMemberMuteChangeEvent {
    pub group: Group,
    pub user: User,
    pub operator: Option<User>,
    pub kind: MuteType,
}

#[derive(Clone, Debug, PartialEq)]
pub struct GroupHightLightChangeEvent {
    pub group: Group,
    pub kind: GroupHightLightChangeType,
    pub message: Message,
    pub sender: Option<User>,
    pub operator: Option<User>,
}

#[derive(Clone, Debug, PartialEq)]
pub struct GroupMemberAliasChangeEvent {
    pub group: Group,
    pub user: User,
    pub operator: Option<User>,
    pub old_alias: Option<String>,
    pub new_alias: Option<String>,
}

#[derive(Clone, Debug, PartialEq)]
pub struct MessageDeletedEvent {
    pub user: Option<User>,
    pub operator: Option<User>,
    pub group: Option<Group>,
    pub message: Option<Message>,
}

#[derive(Clone, Debug, PartialEq)]
pub enum GroupMemberIncreseReason {
    Approve { operator: Option<User> },
    Invite { inviter: Option<User>, operator: Option<User> },
    Unknown,
}

#[derive(Clone, Debug, PartialEq)]
pub enum GroupMemberDecreaseReason {
    Kick { operator: Option<User> },
    KickMe { operator: Option<User> },
    Leave,
    Unknown,
}

#[derive(Clone, Copy, Debug, PartialEq, Eq, Structural)]
pub enum GroupAdminChangeType {
    Grant,
    Revoke,
    Unknown,
}

#[derive(Clone, Copy, Debug, PartialEq, Eq, Structural)]
pub enum GroupHightLightChangeType {
    Pin,
    Unpin,
    Unknown,
}

/// A mute or its end; a mute may last a number of seconds.
#[derive(Clone, Copy, Debug, PartialEq, Eq, Structural)]
pub enum MuteType {
    Mute { duration_secs: Option<u64> },
    UnMute,
    Unknown,
}

#[derive(Clone, Debug, PartialEq)]
pub struct MessageEditedEvent {
    pub user: User,
    pub group: Option<Group>,
    pub new_message: Option<Message>,
    pub operator: Option<User>,
    pub old_message: Option<Message>,
}

#[derive(Clone, Debug, PartialEq)]
pub struct MessageReactionsEvent {
    pub user: User,
    pub group: Option<Group>,
    pub message: Message,
    pub reactions: Vec<String>,
}

} // verus!
