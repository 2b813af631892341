use oxidebot::utils::interaction::{SessionAction, SessionKey, SessionRegistry};

fn key(platform: &str, user: &str) -> SessionKey {
    SessionKey { platform: platform.to_string(), user_id: user.to_string() }
}

#[test]
fn second_matcher_joins_live_session_and_later_one_starts_fresh() {
    let mut reg: SessionRegistry<u32> = SessionRegistry::new();
    assert_eq!(reg.start_or_forward(key("qq", "u1"), true, 1), SessionAction::Started);
    let second = reg.start_or_forward(key("qq", "u1"), true, 2);
    assert_eq!(second, SessionAction::Forward(0));
    assert_eq!(*reg.channel(0), 1);
    assert_eq!(reg.finish(&key("qq", "u1")), Some(1));
    assert_eq!(reg.start_or_forward(key("qq", "u1"), true, 3), SessionAction::Started);
    assert_eq!(*reg.channel(0), 3);
}

#[test]
fn no_session_and_no_start_does_nothing() {
    let mut reg: SessionRegistry<u32> = SessionRegistry::new();
    assert_eq!(reg.start_or_forward(key("qq", "u1"), false, 1), SessionAction::Ignored);
    assert_eq!(reg.finish(&key("qq", "u1")), None);
    assert_eq!(reg.start_or_forward(key("qq", "u1"), true, 2), SessionAction::Started);
    assert_eq!(reg.start_or_forward(key("qq", "u1"), false, 3), SessionAction::Forward(0));
}

#[test]
fn keys_differ_by_platform_and_user() {
    let mut reg: SessionRegistry<u32> = SessionRegistry::new();
    assert_eq!(reg.start_or_forward(key("qq", "u1"), true, 1), SessionAction::Started);
    assert_eq!(reg.start_or_forward(key("tg", "u1"), true, 2), SessionAction::Started);
    assert_eq!(reg.start_or_forward(key("qq", "u2"), true, 3), SessionAction::Started);
    assert_eq!(reg.start_or_forward(key("tg", "u1"), true, 4), SessionAction::Forward(1));
    assert_eq!(reg.finish(&key("tg", "u1")), Some(2));
    assert_eq!(reg.start_or_forward(key("qq", "u2"), true, 5), SessionAction::Forward(1));
}
