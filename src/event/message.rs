use vstd::prelude::*;

use crate::api::payload::{ReactionRequest, SendMessageTarget, SendRequest};
use crate::source::group::Group;
use crate::source::message::{Message, MessageSegment};
use crate::source::user::User;

verus! {

/// A message that a user sent, in a group or in private. `time` is in
/// milliseconds since the Unix epoch (UTC).
#[derive(Clone, Debug, PartialEq, Default)]
pub struct MessageEvent {
    pub id: String,
    pub platform: String,
    pub time: Option<i64>,
    pub sender: User,
    pub group: Option<Group>,
    pub message: Message,
}

/// Where an answer to a message goes: its group, else its sender.
pub open spec fn message_target(e: MessageEvent) -> SendMessageTarget {
    match e.group {
        Some(g) => SendMessageTarget::Group(g.id),
        None => SendMessageTarget::Private(e.sender.id),
    }
}

impl MessageEvent {
    /// The request that answers the message where it was sent.
    pub fn send_message(&self, message: Vec<MessageSegment>) -> (r: SendRequest)
        ensures
            r == (SendRequest { message, target: message_target(*self) }),
    {
        let target = match &self.group {
            Some(group) => SendMessageTarget::Group(group.id.clone()),
            None => SendMessageTarget::Private(self.sender.id.clone()),
        };
        SendRequest { message, target }
    }

    /// The request that answers the sender in private.
    pub fn send_private_message(&self, message: Vec<MessageSegment>) -> (r: SendRequest)
        ensures
            r == (SendRequest { message, target: SendMessageTarget::Private(self.sender.id) }),
    {
        SendRequest { message, target: SendMessageTarget::Private(self.sender.id.clone()) }
    }

    /// The id that deleting this event's message goes by.
    pub fn delete_message(&self) -> (r: String)
        ensures
            r == self.id,
    {
        self.id.clone()
    }

    /// The request that answers the message where it was sent, quoting it:
    /// a reply segment to the message comes last.
    pub fn replay_message(&self, message: Vec<MessageSegment>) -> (r: SendRequest)
        ensures
            r.target == message_target(*self),
            r.message@ == message@.push(MessageSegment::Reply { message_id: self.message.id }),
    {
        let mut message = message;
        message.push(MessageSegment::Reply { message_id: self.message.id.clone() });
        self.send_message(message)
    }

    /// One reaction request for each reaction, in order, all on this event.
    pub fn set_reactions(&self, reaction_ids: Vec<String>) -> (r: Vec<ReactionRequest>)
        ensures
            r@.len() == reaction_ids@.len(),
            forall|i: int|
                0 <= i < r@.len() ==> #[trigger] r@[i] == (ReactionRequest {
                    message_id: self.id,
                    reaction_id: reaction_ids@[i],
                }),
    {
        let mut out: Vec<ReactionRequest> = Vec::new();
        let n = reaction_ids.len();
        let mut i: usize = 0;
        while i < n
            invariant
                n == reaction_ids@.len(),
                i <= n,
                out@.len() == i,
                forall|j: int|
                    0 <= j < i ==> #[trigger] out@[j] == (ReactionRequest {
                        message_id: self.id,
                        reaction_id: reaction_ids@[j],
                    }),
            decreases n - i,
        {
            out.push(
                ReactionRequest {
                    message_id: self.id.clone(),
                    reaction_id: reaction_ids[i].clone(),
                },
            );
            i = i + 1;
        }
        out
    }
}

} // verus!
