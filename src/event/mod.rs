use vstd::prelude::*;

pub mod any;
pub mod message;
pub mod meta;
pub mod notice;
pub mod request;

use any::AnyEvent;
use message::MessageEvent;
use meta::MetaEvent;
use notice::NoticeEvent;
use request::RequestEvent;

verus! {

/// A canonical event: one of a closed set of kinds.
#[derive(Clone, Debug)]
pub enum Event {
    MessageEvent(MessageEvent),
    NoticeEvent(NoticeEvent),
    RequestEvent(RequestEvent),
    MetaEvent(MetaEvent),
    AnyEvent(AnyEvent),
}

/// A raw occurrence, as a platform connector hands it over. Connectors
/// implement it; classification is meant to be a function of the occurrence
/// alone.
pub trait EventTrait {
    /// The canonical events that the occurrence stands for, in order; it may
    /// stand for none.
    fn get_events(&self) -> Vec<Event>;

    /// The platform that the occurrence comes from.
    fn server(&self) -> String;
}

} // verus!
