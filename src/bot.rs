use vstd::prelude::*;
use std::sync::Arc;

use crate::shared::share;
use crate::text::str_eq;

verus! {

/// A registered connector: its platform, the id of its bot account (if the
/// connector reported one), and the connector itself.
pub struct BotEntry<B> {
    pub server: String,
    pub id: Option<String>,
    pub bot: Arc<B>,
}

/// The entry is the bot `bot_id` of the platform `server`.
pub open spec fn is_bot<B>(e: BotEntry<B>, server: Seq<char>, bot_id: Seq<char>) -> bool {
    &&& e.server@ == server
    &&& e.id matches Some(id)
    &&& id@ == bot_id
}

/// `r` is the connector of the first entry of `s` that is the bot `bot_id`
/// of the platform `server`, and `None` if no entry is.
pub open spec fn found_bot<B>(
    r: Option<Arc<B>>,
    s: Seq<BotEntry<B>>,
    server: Seq<char>,
    bot_id: Seq<char>,
) -> bool {
    match r {
        Some(b) => exists|i: int|
            0 <= i < s.len() && is_bot(s[i], server, bot_id) && b == s[i].bot && forall|j: int|
                0 <= j < i ==> !is_bot(#[trigger] s[j], server, bot_id),
        None => forall|i: int| 0 <= i < s.len() ==> !is_bot(#[trigger] s[i], server, bot_id),
    }
}

/// The connectors a manager has registered, in order of registration.
pub struct BotRegistry<B> {
    bots: Vec<BotEntry<B>>,
}

impl<B> View for BotRegistry<B> {
    type V = Seq<BotEntry<B>>;

    closed spec fn view(&self) -> Seq<BotEntry<B>> {
        self.bots@
    }
}

impl<B> BotRegistry<B> {
    pub fn new() -> (r: Self)
        ensures
            r@ == Seq::<BotEntry<B>>::empty(),
    {
        BotRegistry { bots: Vec::new() }
    }

    /// Registers connectors after those already there.
    pub fn add_bots(&mut self, bots: Vec<BotEntry<B>>)
        ensures
            final(self)@ == old(self)@ + bots@,
    {
        let mut bots = bots;
        self.bots.append(&mut bots);
    }

    pub fn len(&self) -> (r: usize)
        ensures
            r == self@.len(),
    {
        self.bots.len()
    }

    /// The first registered connector of the platform `server` whose bot
    /// is `bot_id`.
    pub fn get_bot(&self, server: &str, bot_id: &str) -> (r: Option<Arc<B>>)
        ensures
            found_bot(r, self@, server@, bot_id@),
    {
        let n = self.bots.len();
        let mut i: usize = 0;
        while i < n
            invariant
                n == self.bots@.len(),
                i <= n,
                forall|j: int| 0 <= j < i ==> !is_bot(#[trigger] self.bots@[j], server@, bot_id@),
            decreases n - i,
        {
            let e = &self.bots[i];
            if str_eq(e.server.as_str(), server) {
                if let Some(id) = &e.id {
                    if str_eq(id.as_str(), bot_id) {
                        let b = share(&e.bot);
                        assert(is_bot(self@[i as int], server@, bot_id@));
                        assert(b == self@[i as int].bot);
                        assert(forall|j: int| 0 <= j < i ==> !is_bot(#[trigger] self@[j], server@, bot_id@));
                        return Some(b);
                    }
                }
            }
            i = i + 1;
        }
        None
    }
}

} // verus!
