use vstd::prelude::*;

use std::sync::Arc;

use super::user::User;
use crate::text::{starts_with, str_eq, trim_start_matches};

verus! {

/// A message: its platform id and its segments in order.
#[derive(Clone, Debug, PartialEq, Default)]
pub struct Message {
    pub id: String,
    pub segments: Vec<MessageSegment>,
}

/// One part of a message. Coordinates are in millionths of a degree.
#[derive(Clone, Debug, PartialEq)]
pub enum MessageSegment {
    Text { content: String },
    Image { file: Option<File> },
    Video { file: Option<File>, length: Option<i32> },
    Audio { file: Option<File>, length: Option<i32> },
    File { file: Option<File> },
    Reply { message_id: String },
    At { user_id: String },
    AtAll,
    Reference { message_id: String },
    Share { title: String, content: Option<String>, url: String, image: Option<File> },
    Location { latitude: i64, longitude: i64, title: String, content: Option<String> },
    Emoji { id: String },
    ForwardNode { message_id: String },
    ForwardCustomNode { user: Option<User>, message: Arc<Message> },
    CustomString { kind: String, data: String },
    CustomValue { kind: String, data: serde_json::Value },
}

/// The segment is a text segment that starts with `p`.
pub open spec fn text_starts_with(seg: MessageSegment, p: Seq<char>) -> bool {
    seg matches MessageSegment::Text { content } && crate::text::is_prefix(p, content@)
}

/// The segment mentions the user, or replies to a message whose id starts
/// with the user's id.
pub open spec fn segment_relates_to(seg: MessageSegment, user_id: Seq<char>) -> bool {
    match seg {
        MessageSegment::At { user_id: id } => id@ == user_id,
        MessageSegment::Reply { message_id } => crate::text::is_prefix(user_id, message_id@),
        _ => false,
    }
}

/// The text of a text segment; nothing for any other segment.
pub open spec fn segment_text(seg: MessageSegment) -> Seq<char> {
    match seg {
        MessageSegment::Text { content } => content@,
        _ => Seq::empty(),
    }
}

/// The texts of the segments, joined in order.
pub open spec fn joined_text(segs: Seq<MessageSegment>) -> Seq<char>
    decreases segs.len(),
{
    if segs.len() == 0 {
        Seq::empty()
    } else {
        joined_text(segs.drop_last()) + segment_text(segs.last())
    }
}

/// `out` is the text segment `seg` with every leading copy of `p` taken off.
pub open spec fn trimmed_text(out: MessageSegment, seg: MessageSegment, p: Seq<char>) -> bool {
    out matches MessageSegment::Text { content } && content@ == crate::text::strip_repeated(segment_text(seg), p)
}

/// The index of the first text segment that starts with `p`, if any.
pub open spec fn first_text_with(segs: Seq<MessageSegment>, p: Seq<char>) -> Option<int> {
    if exists|i: int| 0 <= i < segs.len() && text_starts_with(segs[i], p) {
        Some(
            choose|i: int|
                0 <= i < segs.len() && text_starts_with(segs[i], p) && forall|j: int|
                    0 <= j < i ==> !text_starts_with(#[trigger] segs[j], p),
        )
    } else {
        None
    }
}

proof fn lemma_first_text_with(segs: Seq<MessageSegment>, p: Seq<char>, k: int)
    requires
        0 <= k < segs.len(),
        text_starts_with(segs[k], p),
        forall|j: int| 0 <= j < k ==> !text_starts_with(#[trigger] segs[j], p),
    ensures
        first_text_with(segs, p) == Some(k),
{
    let c = choose|i: int|
        0 <= i < segs.len() && text_starts_with(segs[i], p) && forall|j: int|
            0 <= j < i ==> !text_starts_with(#[trigger] segs[j], p);
    assert(0 <= c < segs.len() && text_starts_with(segs[c], p) && forall|j: int|
        0 <= j < c ==> !text_starts_with(#[trigger] segs[j], p));
    if c < k {
        assert(!text_starts_with(segs[c], p));
    }
    if k < c {
        assert(!text_starts_with(segs[k], p));
    }
}

impl Message {
    /// Whether some text segment starts with `text`.
    pub fn starts_with_text(&self, text: &str) -> (r: bool)
        ensures
            r == exists|i: int|
                0 <= i < self.segments@.len() && text_starts_with(self.segments@[i], text@),
    {
        let n = self.segments.len();
        let mut i: usize = 0;
        while i < n
            invariant
                n == self.segments@.len(),
                i <= n,
                forall|j: int| 0 <= j < i ==> !text_starts_with(self.segments@[j], text@),
            decreases n - i,
        {
            if let MessageSegment::Text { content } = &self.segments[i] {
                if starts_with(content.as_str(), text) {
                    return true;
                }
            }
            i = i + 1;
        }
        false
    }

    /// The segments with every leading copy of `text` taken off the first
    /// text segment that starts with it; every other segment is a clone.
    pub fn trim_head_text(&self, text: &str) -> (r: Vec<MessageSegment>)
        ensures
            r@.len() == self.segments@.len(),
            forall|i: int|
                0 <= i < r@.len() && first_text_with(self.segments@, text@) != Some(i) ==> cloned(
                    self.segments@[i],
                    #[trigger] r@[i],
                ),
            first_text_with(self.segments@, text@) matches Some(k) ==> trimmed_text(
                r@[k],
                self.segments@[k],
                text@,
            ),
    {
        let n = self.segments.len();
        let mut out: Vec<MessageSegment> = Vec::new();
        let mut trimmed: Option<usize> = None;
        let mut i: usize = 0;
        while i < n
            invariant
                n == self.segments@.len(),
                i <= n,
                out@.len() == i,
                trimmed matches Some(k) ==> k < i && text_starts_with(self.segments@[k as int], text@)
                    && trimmed_text(out@[k as int], self.segments@[k as int], text@),
                trimmed matches Some(k) ==> forall|j: int|
                    0 <= j < k ==> !text_starts_with(#[trigger] self.segments@[j], text@),
                trimmed is None ==> forall|j: int|
                    0 <= j < i ==> !text_starts_with(#[trigger] self.segments@[j], text@),
                forall|j: int|
                    0 <= j < i && trimmed != Some(j as usize) ==> cloned(
                        self.segments@[j],
                        #[trigger] out@[j],
                    ),
            decreases n - i,
        {
            let seg = &self.segments[i];
            let mut done = false;
            if trimmed.is_none() {
                if let MessageSegment::Text { content } = seg {
                    if starts_with(content.as_str(), text) {
                        let rest = trim_start_matches(content.as_str(), text);
                        out.push(MessageSegment::Text { content: rest });
                        trimmed = Some(i);
                        done = true;
                    }
                }
            }
            if !done {
                out.push(seg.clone());
            }
            i = i + 1;
        }
        proof {
            match trimmed {
                Some(k) => {
                    lemma_first_text_with(self.segments@, text@, k as int);
                },
                None => {},
            }
        }
        out
    }

    /// The texts of all text segments, joined in order.
    pub fn get_raw_text(&self) -> (r: String)
        ensures
            r@ == joined_text(self.segments@),
    {
        let n = self.segments.len();
        let mut out = String::new();
        let mut i: usize = 0;
        while i < n
            invariant
                n == self.segments@.len(),
                i <= n,
                out@ == joined_text(self.segments@.subrange(0, i as int)),
            decreases n - i,
        {
            assert(self.segments@.subrange(0, i + 1).drop_last() =~= self.segments@.subrange(
                0,
                i as int,
            ));
            if let MessageSegment::Text { content } = &self.segments[i] {
                out.append(content.as_str());
            } else {
                assert(out@ + Seq::<char>::empty() =~= out@);
            }
            i = i + 1;
        }
        assert(self.segments@.subrange(0, n as int) =~= self.segments@);
        out
    }

    /// Whether a segment mentions the user, or replies to a message whose id
    /// starts with the user's id.
    pub fn is_related_to_user(&self, user_id: &str) -> (r: bool)
        ensures
            r == exists|i: int|
                0 <= i < self.segments@.len() && segment_relates_to(self.segments@[i], user_id@),
    {
        let n = self.segments.len();
        let mut i: usize = 0;
        while i < n
            invariant
                n == self.segments@.len(),
                i <= n,
                forall|j: int| 0 <= j < i ==> !segment_relates_to(self.segments@[j], user_id@),
            decreases n - i,
        {
            match &self.segments[i] {
                MessageSegment::At { user_id: id } => {
                    if str_eq(id.as_str(), user_id) {
                        return true;
                    }
                },
                MessageSegment::Reply { message_id } => {
                    if starts_with(message_id.as_str(), user_id) {
                        return true;
                    }
                },
                _ => {},
            }
            i = i + 1;
        }
        false
    }
}

impl MessageSegment {
    pub fn text(content: &str) -> (r: MessageSegment)
        ensures
            r matches MessageSegment::Text { content: c } && c@ == content@,
    {
        MessageSegment::Text { content: content.to_owned() }
    }

    pub fn image(file: File) -> (r: MessageSegment)
        ensures
            r == (MessageSegment::Image { file: Some(file) }),
    {
        MessageSegment::Image { file: Some(file) }
    }

    pub fn video(file: File, length: Option<i32>) -> (r: MessageSegment)
        ensures
            r == (MessageSegment::Video { file: Some(file), length }),
    {
        MessageSegment::Video { file: Some(file), length }
    }

    pub fn audio(file: File, length: Option<i32>) -> (r: MessageSegment)
        ensures
            r == (MessageSegment::Audio { file: Some(file), length }),
    {
        MessageSegment::Audio { file: Some(file), length }
    }

    pub fn file(file: File) -> (r: MessageSegment)
        ensures
            r == (MessageSegment::File { file: Some(file) }),
    {
        MessageSegment::File { file: Some(file) }
    }

    pub fn reply(message_id: &str) -> (r: MessageSegment)
        ensures
            r matches MessageSegment::Reply { message_id: m } && m@ == message_id@,
    {
        MessageSegment::Reply { message_id: message_id.to_owned() }
    }

    pub fn at(user_id: &str) -> (r: MessageSegment)
        ensures
            r matches MessageSegment::At { user_id: u } && u@ == user_id@,
    {
        MessageSegment::At { user_id: user_id.to_owned() }
    }

    pub fn at_all() -> (r: MessageSegment)
        ensures
            r == MessageSegment::AtAll,
    {
        MessageSegment::AtAll
    }

    pub fn reference(message_id: &str) -> (r: MessageSegment)
        ensures
            r matches MessageSegment::Reference { message_id: m } && m@ == message_id@,
    {
        MessageSegment::Reference { message_id: message_id.to_owned() }
    }

    pub fn share(title: &str, url: &str, content: Option<&str>, image: Option<File>) -> (r:
        MessageSegment)
        ensures
            r matches MessageSegment::Share { title: t, content: c, url: u, image: i } && t@
                == title@ && u@ == url@ && i == image && c.is_some() == content.is_some() && (
            content.is_some() ==> c.unwrap()@ == content.unwrap()@),
    {
        let content = match content {
            Some(c) => Some(c.to_owned()),
            None => None,
        };
        MessageSegment::Share { title: title.to_owned(), content, url: url.to_owned(), image }
    }

    pub fn location(latitude: i64, longitude: i64, title: &str, content: Option<&str>) -> (r:
        MessageSegment)
        ensures
            r matches MessageSegment::Location { latitude: la, longitude: lo, title: t, content: c }
                && la == latitude && lo == longitude && t@ == title@ && c.is_some()
                == content.is_some() && (content.is_some() ==> c.unwrap()@ == content.unwrap()@),
    {
        let content = match content {
            Some(c) => Some(c.to_owned()),
            None => None,
        };
        MessageSegment::Location { latitude, longitude, title: title.to_owned(), content }
    }

    pub fn emoji(id: &str) -> (r: MessageSegment)
        ensures
            r matches MessageSegment::Emoji { id: i } && i@ == id@,
    {
        MessageSegment::Emoji { id: id.to_owned() }
    }

    pub fn forward_node(message_id: &str) -> (r: MessageSegment)
        ensures
            r matches MessageSegment::ForwardNode { message_id: m } && m@ == message_id@,
    {
        MessageSegment::ForwardNode { message_id: message_id.to_owned() }
    }

    pub fn forward_custom_node(user: Option<User>, message: Message) -> (r: MessageSegment)
        ensures
            r matches MessageSegment::ForwardCustomNode { user: u, message: m } && u == user && *m
                == message,
    {
        MessageSegment::ForwardCustomNode { user, message: Arc::new(message) }
    }

    pub fn custom_string(kind: &str, data: &str) -> (r: MessageSegment)
        ensures
            r matches MessageSegment::CustomString { kind: t, data: d } && t@ == kind@ && d@
                == data@,
    {
        MessageSegment::CustomString { kind: kind.to_owned(), data: data.to_owned() }
    }

    pub fn custom_value(kind: &str, data: serde_json::Value) -> (r: MessageSegment)
        ensures
            r matches MessageSegment::CustomValue { kind: t, data: d } && t@ == kind@ && d
                == data,
    {
        MessageSegment::CustomValue { kind: kind.to_owned(), data }
    }
}

/// A file as a message or a group's storage refers to it. `uri` is the text
/// of a URI that parses, and `mime` the text of a media type.
#[derive(Clone, Debug, PartialEq, Default)]
pub struct File {
    pub id: Option<String>,
    pub name: String,
    pub uri: Option<String>,
    pub base64: Option<String>,
    pub mime: Option<String>,
    pub size: Option<u64>,
}

#[derive(Clone, Debug, PartialEq)]
pub struct Folder {
    pub id: String,
    pub name: String,
    pub file_amount: u64,
    pub children: Vec<FsNode>,
}

/// A node of a group's file tree.
#[derive(Clone, Debug, PartialEq)]
pub enum FsNode {
    File(File),
    Folder(Arc<Folder>),
    Unknown,
}

} // verus!
