use std::sync::Arc;

use oxidebot::api::payload::{RequestKind, RequestResponse, SendMessageTarget, TargetError};
use oxidebot::event::any::{AnyEvent, AnyEventDataTrait};
use oxidebot::event::message::MessageEvent;
use oxidebot::event::meta::MetaEvent;
use oxidebot::event::notice::{
    GroupMuteChangeEvent, MessageDeletedEvent, MessageReactionsEvent, MuteType, NoticeEvent,
};
use oxidebot::event::request::{FriendAddEvent, GroupAddEvent, RequestEvent};
use oxidebot::event::{Event, EventTrait};
use oxidebot::matcher::Matcher;
use oxidebot::source::group::Group;
use oxidebot::source::message::{Message, MessageSegment};
use oxidebot::source::user::User;
use oxidebot::utils::wait::{UserFilter, WaitError};

struct Raw {
    server: String,
    texts: Vec<String>,
}

impl EventTrait for Raw {
    fn get_events(&self) -> Vec<Event> {
        self.texts.iter().map(|t| Event::MessageEvent(message_event(Some("g1"), "u1", t))).collect()
    }

    fn server(&self) -> String {
        self.server.clone()
    }
}

struct Bot;

fn user(id: &str) -> User {
    User { id: id.to_string(), ..User::default() }
}

fn group(id: &str) -> Group {
    Group { id: id.to_string(), profile: None }
}

fn message_event(group_id: Option<&str>, sender: &str, text: &str) -> MessageEvent {
    MessageEvent {
        id: "e1".to_string(),
        platform: "qq".to_string(),
        time: None,
        sender: user(sender),
        group: group_id.map(group),
        message: Message { id: "m1".to_string(), segments: vec![MessageSegment::text(text)] },
    }
}

fn matcher_of(event: Event) -> Matcher<Raw, Bot> {
    Matcher {
        event_object: Arc::new(Raw { server: "qq".to_string(), texts: vec![] }),
        event: Arc::new(event),
        bot: Arc::new(Bot),
    }
}

#[test]
fn one_matcher_per_classified_event_sharing_raw_and_bot() {
    let raw = Arc::new(Raw {
        server: "qq".to_string(),
        texts: vec!["a".to_string(), "b".to_string(), "c".to_string()],
    });
    let bot = Arc::new(Bot);
    let ms = Matcher::new(raw.clone(), bot.clone());
    assert_eq!(ms.len(), 3);
    for (i, m) in ms.iter().enumerate() {
        assert!(Arc::ptr_eq(&m.event_object, &raw));
        assert!(Arc::ptr_eq(&m.bot, &bot));
        let text = m.try_get_message().unwrap().get_raw_text();
        assert_eq!(text, ["a", "b", "c"][i]);
    }
}

#[test]
fn from_events_zips_events_with_shared_handles() {
    let raw = Arc::new(Raw { server: "qq".to_string(), texts: vec![] });
    let bot = Arc::new(Bot);
    let events = vec![
        Event::MessageEvent(message_event(None, "u1", "x")),
        Event::MetaEvent(MetaEvent::default()),
    ];
    let ms = Matcher::from_events(raw.clone(), events, bot.clone());
    assert_eq!(ms.len(), 2);
    assert!(ms[0].try_get_message().is_some());
    assert!(ms[1].try_get_message().is_none());
    assert!(Arc::ptr_eq(&ms[1].event_object, &raw));
    assert!(Arc::ptr_eq(&ms[1].bot, &bot));
}

#[test]
fn occurrence_without_events_gives_no_matcher() {
    let raw = Arc::new(Raw { server: "qq".to_string(), texts: vec![] });
    assert!(Matcher::new(raw, Arc::new(Bot)).is_empty());
}

#[test]
fn clone_shares_everything() {
    let m = matcher_of(Event::MessageEvent(message_event(None, "u1", "hi")));
    let c = m.clone();
    assert!(Arc::ptr_eq(&m.event, &c.event));
    assert!(Arc::ptr_eq(&m.event_object, &c.event_object));
    assert!(Arc::ptr_eq(&m.bot, &c.bot));
}

#[test]
fn projections_of_a_group_message() {
    let m = matcher_of(Event::MessageEvent(message_event(Some("g1"), "u1", "hi")));
    assert_eq!(m.try_get_user().unwrap().id, "u1");
    assert_eq!(m.try_get_group().unwrap().id, "g1");
    assert_eq!(m.try_get_message().unwrap().id, "m1");
    assert!(m.is_group());
    assert!(!m.is_private());
}

#[test]
fn projections_of_a_meta_event() {
    let m = matcher_of(Event::MetaEvent(MetaEvent { kind: "heartbeat".to_string(), detail: None }));
    assert!(m.try_get_user().is_none());
    assert!(m.try_get_group().is_none());
    assert!(m.try_get_message().is_none());
    assert!(m.is_private());
    assert_eq!(m.try_send_message(vec![]).unwrap_err(), TargetError::Unsupported);
    assert_eq!(m.try_delete_msg().unwrap_err(), TargetError::NoMessage);
}

#[test]
fn related_to_user_and_bot() {
    let mut e = message_event(Some("g1"), "u1", "hi");
    e.message.segments.push(MessageSegment::at("bot7"));
    let m = matcher_of(Event::MessageEvent(e));
    assert!(m.is_related_to_user("bot7"));
    assert!(!m.is_related_to_user("u1"));
    assert!(m.is_related_to_bot(Some("bot7")));
    assert!(!m.is_related_to_bot(None));
    let friend = matcher_of(Event::RequestEvent(RequestEvent::FriendAddEvent(FriendAddEvent {
        id: "r1".to_string(),
        user: user("u2"),
        message: None,
    })));
    assert!(friend.is_related_to_user("anyone"));
}

#[test]
fn send_goes_to_group_else_sender() {
    let in_group = matcher_of(Event::MessageEvent(message_event(Some("g1"), "u1", "hi")));
    let req = in_group.try_send_message(vec![MessageSegment::text("x")]).unwrap();
    assert_eq!(req.target, SendMessageTarget::Group("g1".to_string()));
    assert_eq!(req.message, vec![MessageSegment::text("x")]);
    let private = matcher_of(Event::MessageEvent(message_event(None, "u1", "hi")));
    let req = private.try_send_message(vec![]).unwrap();
    assert_eq!(req.target, SendMessageTarget::Private("u1".to_string()));
}

#[test]
fn reply_quotes_the_message_last() {
    let m = matcher_of(Event::MessageEvent(message_event(None, "u1", "hi")));
    let req = m.try_reply_message(vec![MessageSegment::text("ok")]).unwrap();
    assert_eq!(req.message, vec![MessageSegment::text("ok"), MessageSegment::reply("m1")]);
    assert_eq!(req.target, SendMessageTarget::Private("u1".to_string()));
    assert_eq!(m.try_delete_msg().unwrap(), "m1");
}

#[test]
fn muted_group_notice_has_no_target() {
    let n = NoticeEvent::GroupMuteChangeEvent(GroupMuteChangeEvent {
        group: group("g1"),
        operator: None,
        kind: MuteType::Mute { duration_secs: Some(60) },
    });
    assert_eq!(n.send_message(vec![]).unwrap_err(), TargetError::GroupMuted);
    let unmuted = NoticeEvent::GroupMuteChangeEvent(GroupMuteChangeEvent {
        group: group("g1"),
        operator: None,
        kind: MuteType::UnMute,
    });
    assert_eq!(unmuted.target().unwrap(), SendMessageTarget::Group("g1".to_string()));
}

#[test]
fn deleted_message_notice_targets() {
    let nobody = NoticeEvent::MessageDeletedEvent(MessageDeletedEvent {
        user: None,
        operator: None,
        group: None,
        message: None,
    });
    assert_eq!(nobody.target().unwrap_err(), TargetError::UnknownUser);
    let someone = NoticeEvent::MessageDeletedEvent(MessageDeletedEvent {
        user: Some(user("u3")),
        operator: None,
        group: None,
        message: None,
    });
    assert_eq!(someone.target().unwrap(), SendMessageTarget::Private("u3".to_string()));
    let reactions = NoticeEvent::MessageReactionsEvent(MessageReactionsEvent {
        user: user("u4"),
        group: Some(group("g9")),
        message: Message::default(),
        reactions: vec![],
    });
    assert_eq!(reactions.target().unwrap(), SendMessageTarget::Group("g9".to_string()));
}

#[test]
fn request_answers() {
    let r = RequestEvent::GroupAddEvent(GroupAddEvent {
        id: "req9".to_string(),
        user: user("u1"),
        group: group("g1"),
        message: None,
    });
    let a = r.approve();
    assert_eq!(a.kind, RequestKind::AddGroup);
    assert_eq!(a.id, "req9");
    assert_eq!(a.response, RequestResponse::Approve);
    assert_eq!(r.reject().response, RequestResponse::Reject);
    let m = matcher_of(Event::RequestEvent(r));
    assert_eq!(
        m.try_send_message(vec![]).unwrap().target,
        SendMessageTarget::Group("g1".to_string())
    );
}

#[test]
fn message_event_requests() {
    let e = message_event(Some("g1"), "u1", "hi");
    assert_eq!(e.send_private_message(vec![]).target, SendMessageTarget::Private("u1".to_string()));
    assert_eq!(e.delete_message(), "e1");
    let req = e.replay_message(vec![]);
    assert_eq!(req.message, vec![MessageSegment::reply("m1")]);
    let rs = e.set_reactions(vec!["like".to_string(), "heart".to_string()]);
    assert_eq!(rs.len(), 2);
    assert_eq!(rs[1].message_id, "e1");
    assert_eq!(rs[1].reaction_id, "heart");
}

#[derive(Clone, Debug, PartialEq)]
struct Poke {
    strength: u8,
}

impl AnyEventDataTrait for Poke {}

#[derive(Clone)]
struct Other;

impl AnyEventDataTrait for Other {}

#[test]
fn any_event_downcasts_to_its_data_type() {
    let mut data = hyper::http::Extensions::new();
    data.insert(Poke { strength: 3 });
    let e = AnyEvent { server: "qq".to_string(), kind: "poke".to_string(), data };
    assert_eq!(e.downcast_ref::<Poke>(), Some(&Poke { strength: 3 }));
    assert!(e.downcast_ref::<Other>().is_none());
}

#[test]
fn user_filter_follows_platform_and_user() {
    let init = matcher_of(Event::MessageEvent(message_event(None, "u1", "hi")));
    let f = UserFilter::of(&init, "qq").unwrap();
    let same = matcher_of(Event::MessageEvent(message_event(Some("g"), "u1", "next")));
    assert!(f.accepts(&same, "qq"));
    assert!(f.accepts_message(&same, "qq"));
    assert!(!f.accepts(&same, "tg"));
    let other = matcher_of(Event::MessageEvent(message_event(None, "u2", "x")));
    assert!(!f.accepts(&other, "qq"));
    let friend = matcher_of(Event::RequestEvent(RequestEvent::FriendAddEvent(FriendAddEvent {
        id: "r".to_string(),
        user: user("u1"),
        message: None,
    })));
    assert!(f.accepts(&friend, "qq"));
    assert!(!f.accepts_message(&friend, "qq"));
    let meta = matcher_of(Event::MetaEvent(MetaEvent::default()));
    assert_eq!(UserFilter::of(&meta, "qq").unwrap_err(), WaitError::NoUser);
}

#[test]
fn session_key_is_platform_and_user() {
    let m = matcher_of(Event::MessageEvent(message_event(None, "u1", "hi")));
    let k = m.session_key("qq").unwrap();
    assert_eq!(k.platform, "qq");
    assert_eq!(k.user_id, "u1");
    let meta = matcher_of(Event::MetaEvent(MetaEvent::default()));
    assert!(meta.session_key("qq").is_none());
}
