use oxidebot::source::message::{Message, MessageSegment};

#[test]
fn starts_with_text_finds_any_text_segment() {
    let m = Message {
        id: "m1".to_string(),
        segments: vec![MessageSegment::at("u1"), MessageSegment::text("/help me")],
    };
    assert!(m.starts_with_text("/help"));
    assert!(!m.starts_with_text("/start"));
    let empty = Message::default();
    assert!(!empty.starts_with_text(""));
}

#[test]
fn trim_head_text_trims_first_matching_segment_only() {
    let m = Message {
        id: "m1".to_string(),
        segments: vec![
            MessageSegment::text("hello"),
            MessageSegment::text("!!!cmd"),
            MessageSegment::text("!!again"),
        ],
    };
    let out = m.trim_head_text("!");
    assert_eq!(out.len(), 3);
    assert_eq!(out[0], MessageSegment::text("hello"));
    assert_eq!(out[1], MessageSegment::text("cmd"));
    assert_eq!(out[2], MessageSegment::text("!!again"));
}

#[test]
fn trim_head_text_without_match_keeps_segments() {
    let m = Message {
        id: "m1".to_string(),
        segments: vec![MessageSegment::at("u1"), MessageSegment::text("abc")],
    };
    let out = m.trim_head_text("x");
    assert_eq!(out, m.segments);
}

#[test]
fn get_raw_text_joins_text_segments() {
    let m = Message {
        id: "m1".to_string(),
        segments: vec![
            MessageSegment::text("a"),
            MessageSegment::at("u1"),
            MessageSegment::text("bc"),
            MessageSegment::AtAll,
        ],
    };
    assert_eq!(m.get_raw_text(), "abc");
    assert_eq!(Message::default().get_raw_text(), "");
}

#[test]
fn message_is_related_to_user_by_mention_or_reply() {
    let at = Message { id: "1".to_string(), segments: vec![MessageSegment::at("42")] };
    assert!(at.is_related_to_user("42"));
    assert!(!at.is_related_to_user("4"));
    let reply = Message { id: "2".to_string(), segments: vec![MessageSegment::reply("42-7")] };
    assert!(reply.is_related_to_user("42"));
    assert!(!reply.is_related_to_user("7"));
}

#[test]
fn segment_builders_fill_fields() {
    assert_eq!(
        MessageSegment::custom_string("k", "d"),
        MessageSegment::CustomString { kind: "k".to_string(), data: "d".to_string() }
    );
    assert_eq!(
        MessageSegment::share("t", "https://x", Some("c"), None),
        MessageSegment::Share {
            title: "t".to_string(),
            content: Some("c".to_string()),
            url: "https://x".to_string(),
            image: None
        }
    );
    assert_eq!(
        MessageSegment::location(31_230_000, 121_470_000, "here", None),
        MessageSegment::Location {
            latitude: 31_230_000,
            longitude: 121_470_000,
            title: "here".to_string(),
            content: None
        }
    );
    let v = serde_json::Value::Bool(true);
    assert_eq!(
        MessageSegment::custom_value("k", v.clone()),
        MessageSegment::CustomValue { kind: "k".to_string(), data: v }
    );
}
