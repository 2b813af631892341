use vstd::prelude::*;
use std::sync::Arc;

use crate::api::payload::{SendMessageTarget, SendRequest, TargetError};
use crate::event::message::MessageEvent;
use crate::event::notice::NoticeEvent;
use crate::event::request::RequestEvent;
use crate::event::{Event, EventTrait};
use crate::shared::share;
use crate::source::group::Group;
use crate::source::message::{Message, MessageSegment};
use crate::source::user::User;

verus! {

/// The unit of dispatch: one canonical event, the raw occurrence it was
/// classified from, and the connector (`B`) that produced it. The raw
/// occurrence and the connector are shared by all the matchers made from
/// one occurrence.
pub struct Matcher<R, B> {
    pub event_object: Arc<R>,
    pub event: Arc<Event>,
    pub bot: Arc<B>,
}

impl<R, B> Clone for Matcher<R, B> {
    /// Another handle on the same occurrence, event and connector.
    fn clone(&self) -> (r: Self)
        ensures
            r == *self,
    {
        Matcher {
            event_object: share(&self.event_object),
            event: share(&self.event),
            bot: share(&self.bot),
        }
    }
}

/// `r` refers to the value of `v`, and is `None` where `v` is.
pub open spec fn refers_to<T>(r: Option<&T>, v: Option<T>) -> bool {
    match r {
        Some(x) => v == Some(*x),
        None => v is None,
    }
}

/// The user an event is about, if any.
pub open spec fn user_of(e: Event) -> Option<User> {
    match e {
        Event::MessageEvent(m) => Some(m.sender),
        Event::NoticeEvent(n) => match n {
            NoticeEvent::GroupAdminChangeEvent(x) => Some(x.user),
            NoticeEvent::GroupMemberMuteChangeEvent(x) => Some(x.user),
            NoticeEvent::GroupHightLightChangeEvent(x) => x.sender,
            NoticeEvent::GroupMemberAliasChangeEvent(x) => Some(x.user),
            NoticeEvent::MessageDeletedEvent(x) => x.user,
            _ => None,
        },
        Event::RequestEvent(q) => match q {
            RequestEvent::FriendAddEvent(x) => Some(x.user),
            RequestEvent::GroupAddEvent(_) => None,
            RequestEvent::GroupInviteEvent(x) => Some(x.user),
        },
        _ => None,
    }
}

/// The message an event carries, if it is a message event.
pub open spec fn message_of(e: Event) -> Option<Message> {
    match e {
        Event::MessageEvent(m) => Some(m.message),
        _ => None,
    }
}

/// The group an event happened in, if any.
pub open spec fn group_of(e: Event) -> Option<Group> {
    match e {
        Event::MessageEvent(m) => m.group,
        Event::NoticeEvent(n) => match n {
            NoticeEvent::GroupAdminChangeEvent(x) => Some(x.group),
            NoticeEvent::GroupMuteChangeEvent(x) => Some(x.group),
            NoticeEvent::GroupMemberMuteChangeEvent(x) => Some(x.group),
            NoticeEvent::GroupHightLightChangeEvent(x) => Some(x.group),
            NoticeEvent::GroupMemberAliasChangeEvent(x) => Some(x.group),
            NoticeEvent::MessageDeletedEvent(x) => x.group,
            _ => None,
        },
        _ => None,
    }
}

/// Whether an event concerns the user: a message that mentions them, a
/// notice about them, or a friend or invite request (which is always meant
/// for the bot).
pub open spec fn related_to(e: Event, user_id: Seq<char>) -> bool {
    match e {
        Event::MessageEvent(m) => exists|i: int|
            0 <= i < m.message.segments@.len()
                && crate::source::message::segment_relates_to(m.message.segments@[i], user_id),
        Event::NoticeEvent(n) => match n {
            NoticeEvent::GroupAdminChangeEvent(x) => x.user.id@ == user_id,
            NoticeEvent::GroupMemberMuteChangeEvent(x) => x.user.id@ == user_id,
            NoticeEvent::GroupHightLightChangeEvent(x) => x.sender matches Some(s) && s.id@
                == user_id,
            NoticeEvent::GroupMemberAliasChangeEvent(x) => x.user.id@ == user_id,
            NoticeEvent::MessageDeletedEvent(x) => x.user matches Some(u) && u.id@ == user_id,
            _ => false,
        },
        Event::RequestEvent(q) => !(q is GroupAddEvent),
        _ => false,
    }
}

/// Where an answer to an event goes, or why it has nowhere to go.
pub open spec fn event_target(e: Event) -> Result<SendMessageTarget, TargetError> {
    match e {
        Event::MessageEvent(m) => Ok(crate::event::message::message_target(m)),
        Event::NoticeEvent(n) => crate::event::notice::notice_target(n),
        Event::RequestEvent(q) => match q {
            RequestEvent::GroupAddEvent(g) => Ok(SendMessageTarget::Group(g.group.id)),
            _ => Err(TargetError::Unsupported),
        },
        _ => Err(TargetError::Unsupported),
    }
}

/// `r` is the request that sends `message` to where an answer to `e` goes,
/// or the reason why there is no such place.
pub open spec fn sends_to_target(
    r: Result<SendRequest, TargetError>,
    e: Event,
    message: Seq<MessageSegment>,
) -> bool {
    match event_target(e) {
        Ok(target) => r matches Ok(q) && q.target == target && q.message@ == message,
        Err(x) => r == Err::<SendRequest, TargetError>(x),
    }
}

/// The matchers made from one raw occurrence and its events: one for each
/// event, in order, all sharing the occurrence and the connector.
pub open spec fn matchers_of<R, B>(
    ms: Seq<Matcher<R, B>>,
    event_object: Arc<R>,
    events: Seq<Event>,
    bot: Arc<B>,
) -> bool {
    &&& ms.len() == events.len()
    &&& forall|i: int|
        0 <= i < ms.len() ==> {
            &&& (#[trigger] ms[i]).event_object == event_object
            &&& ms[i].bot == bot
            &&& *ms[i].event == events[i]
        }
}

impl<R, B> Matcher<R, B> {
    /// One matcher for each of the events that the raw occurrence was
    /// classified into, in order. No event gives no matcher.
    pub fn from_events(event_object: Arc<R>, events: Vec<Event>, bot: Arc<B>) -> (r: Vec<
        Matcher<R, B>,
    >)
        ensures
            matchers_of(r@, event_object, events@, bot),
    {
        let ghost all = events@;
        let n = events.len();
        let mut rest = events;
        let mut out: Vec<Matcher<R, B>> = Vec::new();
        while rest.len() > 0
            invariant
                n == all.len(),
                out@.len() + rest@.len() == n,
                rest@ == all.subrange(out@.len() as int, n as int),
                forall|i: int|
                    0 <= i < out@.len() ==> {
                        &&& (#[trigger] out@[i]).event_object == event_object
                        &&& out@[i].bot == bot
                        &&& *out@[i].event == all[i]
                    },
            decreases rest@.len(),
        {
            let event = rest.remove(0);
            out.push(
                Matcher {
                    event_object: share(&event_object),
                    event: Arc::new(event),
                    bot: share(&bot),
                },
            );
        }
        out
    }
}

impl<R: EventTrait, B> Matcher<R, B> {
    /// Classifies the raw occurrence with the connector's classifier and
    /// makes one matcher for each event it gives.
    pub fn new(event_object: Arc<R>, bot: Arc<B>) -> (r: Vec<Matcher<R, B>>)
        ensures
            exists|events: Seq<Event>| matchers_of(r@, event_object, events, bot),
    {
        let events = event_object.get_events();
        let ghost evs = events@;
        let r = Matcher::from_events(share(&event_object), events, share(&bot));
        assert(matchers_of(r@, event_object, evs, bot));
        r
    }
}

impl<R, B> Matcher<R, B> {
    /// The user the event is about, if any.
    pub fn try_get_user(&self) -> (r: Option<&User>)
        ensures
            refers_to(r, user_of(*self.event)),
    {
        match &*self.event {
            Event::MessageEvent(event) => Some(&event.sender),
            Event::NoticeEvent(event) => match event {
                NoticeEvent::GroupAdminChangeEvent(x) => Some(&x.user),
                NoticeEvent::GroupMemberMuteChangeEvent(x) => Some(&x.user),
                NoticeEvent::GroupHightLightChangeEvent(x) => x.sender.as_ref(),
                NoticeEvent::GroupMemberAliasChangeEvent(x) => Some(&x.user),
                NoticeEvent::MessageDeletedEvent(x) => x.user.as_ref(),
                _ => None,
            },
            Event::RequestEvent(event) => match event {
                RequestEvent::FriendAddEvent(x) => Some(&x.user),
                RequestEvent::GroupAddEvent(_) => None,
                RequestEvent::GroupInviteEvent(x) => Some(&x.user),
            },
            _ => None,
        }
    }

    /// The message, if the event is a message event.
    pub fn try_get_message(&self) -> (r: Option<&Message>)
        ensures
            refers_to(r, message_of(*self.event)),
    {
        match &*self.event {
            Event::MessageEvent(event) => Some(&event.message),
            _ => None,
        }
    }

    /// The group the event happened in, if any.
    pub fn try_get_group(&self) -> (r: Option<&Group>)
        ensures
            refers_to(r, group_of(*self.event)),
    {
        match &*self.event {
            Event::MessageEvent(event) => event.group.as_ref(),
            Event::NoticeEvent(event) => match event {
                NoticeEvent::GroupAdminChangeEvent(x) => Some(&x.group),
                NoticeEvent::GroupMuteChangeEvent(x) => Some(&x.group),
                NoticeEvent::GroupMemberMuteChangeEvent(x) => Some(&x.group),
                NoticeEvent::GroupHightLightChangeEvent(x) => Some(&x.group),
                NoticeEvent::GroupMemberAliasChangeEvent(x) => Some(&x.group),
                NoticeEvent::MessageDeletedEvent(x) => x.group.as_ref(),
                _ => None,
            },
            _ => None,
        }
    }

    /// Whether the event concerns the bot, given the bot's id as its
    /// connector reports it; a bot with no id is concerned by nothing.
    pub fn is_related_to_bot(&self, bot_id: Option<&str>) -> (r: bool)
        ensures
            r == (bot_id matches Some(id) && related_to(*self.event, id@)),
    {
        match bot_id {
            Some(id) => self.is_related_to_user(id),
            None => false,
        }
    }

    /// Whether the event concerns the user.
    pub fn is_related_to_user(&self, user_id: &str) -> (r: bool)
        ensures
            r == related_to(*self.event, user_id@),
    {
        match &*self.event {
            Event::MessageEvent(event) => event.message.is_related_to_user(user_id),
            Event::NoticeEvent(event) => match event {
                NoticeEvent::GroupAdminChangeEvent(x) => crate::text::str_eq(
                    x.user.id.as_str(),
                    user_id,
                ),
                NoticeEvent::GroupMemberMuteChangeEvent(x) => crate::text::str_eq(
                    x.user.id.as_str(),
                    user_id,
                ),
                NoticeEvent::GroupHightLightChangeEvent(x) => match &x.sender {
                    Some(s) => crate::text::str_eq(s.id.as_str(), user_id),
                    None => false,
                },
                NoticeEvent::GroupMemberAliasChangeEvent(x) => crate::text::str_eq(
                    x.user.id.as_str(),
                    user_id,
                ),
                NoticeEvent::MessageDeletedEvent(x) => match &x.user {
                    Some(u) => crate::text::str_eq(u.id.as_str(), user_id),
                    None => false,
                },
                _ => false,
            },
            Event::RequestEvent(event) => match event {
                RequestEvent::FriendAddEvent(_) => true,
                RequestEvent::GroupAddEvent(_) => false,
                RequestEvent::GroupInviteEvent(_) => true,
            },
            _ => false,
        }
    }

    /// The request that sends `message` to where an answer to the event
    /// goes: the group, else the user in private.
    pub fn try_send_message(&self, message: Vec<MessageSegment>) -> (r: Result<
        SendRequest,
        TargetError,
    >)
        ensures
            sends_to_target(r, *self.event, message@),
    {
        match &*self.event {
            Event::MessageEvent(event) => Ok(event.send_message(message)),
            Event::NoticeEvent(event) => event.send_message(message),
            Event::RequestEvent(event) => match event {
                RequestEvent::GroupAddEvent(x) => Ok(
                    SendRequest { message, target: SendMessageTarget::Group(x.group.id.clone()) },
                ),
                _ => Err(TargetError::Unsupported),
            },
            _ => Err(TargetError::Unsupported),
        }
    }

    /// Like `try_send_message`, with a reply to the event's message added
    /// last; an event without a message cannot be replied to.
    pub fn try_reply_message(&self, message: Vec<MessageSegment>) -> (r: Result<
        SendRequest,
        TargetError,
    >)
        ensures
            message_of(*self.event) is None ==> r == Err::<SendRequest, TargetError>(
                TargetError::NoMessage,
            ),
            message_of(*self.event) matches Some(m) ==> sends_to_target(
                r,
                *self.event,
                message@.push(MessageSegment::Reply { message_id: m.id }),
            ),
    {
        match self.try_get_message() {
            None => Err(TargetError::NoMessage),
            Some(m) => {
                let mut message = message;
                message.push(MessageSegment::Reply { message_id: m.id.clone() });
                self.try_send_message(message)
            },
        }
    }

    /// The id of the message to delete: the event's message.
    pub fn try_delete_msg(&self) -> (r: Result<String, TargetError>)
        ensures
            message_of(*self.event) is None ==> r == Err::<String, TargetError>(
                TargetError::NoMessage,
            ),
            message_of(*self.event) matches Some(m) ==> r == Ok::<String, TargetError>(m.id),
    {
        match self.try_get_message() {
            None => Err(TargetError::NoMessage),
            Some(m) => Ok(m.id.clone()),
        }
    }

    /// Whether the event happened in a group.
    pub fn is_group(&self) -> (r: bool)
        ensures
            r == group_of(*self.event).is_some(),
    {
        self.try_get_group().is_some()
    }

    /// Whether the event happened outside any group.
    pub fn is_private(&self) -> (r: bool)
        ensures
            r == group_of(*self.event).is_none(),
    {
        self.try_get_group().is_none()
    }
}

} // verus!
