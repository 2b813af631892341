//! Event-dispatch core for chat bots that run on many messaging platforms.
//!
//! Raw occurrences from platform connectors are classified into canonical
//! events, paired with their connector into [`matcher::Matcher`]s, passed
//! through a priority-ordered filter chain and fanned out to handlers.
//! Multi-turn conversations are built from bounded waits and a session
//! registry keyed by platform and user.
//!
//! Everything that suspends (receiving from the bus, awaiting a filter or a
//! handler, sleeping) is driven by the caller: the library holds the state
//! and makes every decision, and says in each step what the caller is to do
//! next.

pub mod api;
pub mod bot;
pub mod event;
pub mod filter;
pub mod handler;
pub mod manager;
pub mod matcher;
pub mod opaque;
pub mod shared;
pub mod source;
pub mod text;
pub mod utils;
