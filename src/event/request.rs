use vstd::prelude::*;

use crate::api::payload::{RequestAnswer, RequestKind, RequestResponse};
use crate::source::group::Group;
use crate::source::user::User;

verus! {

/// A pending request that the bot may approve or reject.
#[derive(Clone, Debug, PartialEq)]
pub enum RequestEvent {
    FriendAddEvent(FriendAddEvent),
    GroupAddEvent(GroupAddEvent),
    GroupInviteEvent(GroupInviteEvent),
}

/// A user asks to become the bot's friend.
#[derive(Clone, Debug, PartialEq)]
pub struct FriendAddEvent {
    pub id: String,
    pub user: User,
    pub message: Option<String>,
}

/// A user asks to join a group that the bot manages.
#[derive(Clone, Debug, PartialEq)]
pub struct GroupAddEvent {
    pub id: String,
    pub user: User,
    pub group: Group,
    pub message: Option<String>,
}

/// A user invites the bot into a group.
#[derive(Clone, Debug, PartialEq)]
pub struct GroupInviteEvent {
    pub id: String,
    pub user: User,
    pub group_id: String,
    pub message: Option<String>,
}

/// The answer `response` to the request `e`.
pub open spec fn answer_to(e: RequestEvent, response: RequestResponse) -> RequestAnswer {
    match e {
        RequestEvent::FriendAddEvent(f) => RequestAnswer {
            kind: RequestKind::AddFriend,
            id: f.id,
            response,
        },
        RequestEvent::GroupAddEvent(g) => RequestAnswer {
            kind: RequestKind::AddGroup,
            id: g.id,
            response,
        },
        RequestEvent::GroupInviteEvent(g) => RequestAnswer {
            kind: RequestKind::InviteGroup,
            id: g.id,
            response,
        },
    }
}

impl RequestEvent {
    fn answer(&self, response: RequestResponse) -> (r: RequestAnswer)
        ensures
            r == answer_to(*self, response),
    {
        match self {
            RequestEvent::FriendAddEvent(f) => RequestAnswer {
                kind: RequestKind::AddFriend,
                id: f.id.clone(),
                response,
            },
            RequestEvent::GroupAddEvent(g) => RequestAnswer {
                kind: RequestKind::AddGroup,
                id: g.id.clone(),
                response,
            },
            RequestEvent::GroupInviteEvent(g) => RequestAnswer {
                kind: RequestKind::InviteGroup,
                id: g.id.clone(),
                response,
            },
        }
    }

    /// The answer that approves the request.
    pub fn approve(&self) -> (r: RequestAnswer)
        ensures
            r == answer_to(*self, RequestResponse::Approve),
    {
        self.answer(RequestResponse::Approve)
    }

    /// The answer that rejects the request.
    pub fn reject(&self) -> (r: RequestAnswer)
        ensures
            r == answer_to(*self, RequestResponse::Reject),
    {
        self.answer(RequestResponse::Reject)
    }
}

} // verus!
