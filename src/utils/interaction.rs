use vstd::prelude::*;

use crate::matcher::Matcher;
use crate::text::str_eq;

verus! {

/// The key of a conversation: a platform and a user of it.
#[derive(Clone, Debug, PartialEq, Eq)]
pub struct SessionKey {
    pub platform: String,
    pub user_id: String,
}

/// Two keys name the same conversation.
pub open spec fn same_key(a: SessionKey, b: SessionKey) -> bool {
    a.platform@ == b.platform@ && a.user_id@ == b.user_id@
}

/// A live conversation: its key and the sending end (`S`) of its private
/// forwarding channel.
pub struct Session<S> {
    pub key: SessionKey,
    pub channel: S,
}

/// The position of the live session of `key` in `s`, if there is one.
pub open spec fn find_session<S>(s: Seq<Session<S>>, key: SessionKey) -> Option<int> {
    if exists|i: int| 0 <= i < s.len() && same_key(s[i].key, key) {
        Some(choose|i: int| 0 <= i < s.len() && same_key(s[i].key, key))
    } else {
        None
    }
}

/// No two live sessions share a key.
pub open spec fn keys_unique<S>(s: Seq<Session<S>>) -> bool {
    forall|i: int, j: int|
        0 <= i < s.len() && 0 <= j < s.len() && i != j ==> !same_key(s[i].key, s[j].key)
}

/// What became of a matcher handed to the registry.
#[derive(Clone, Copy, Debug, PartialEq, Eq, Structural)]
pub enum SessionAction {
    /// A new session was recorded with the channel given; the caller starts
    /// its handling routine with the matcher and the receiving end.
    Started,
    /// A session of the key is live: the caller forwards the matcher into
    /// the channel of the session at this position.
    Forward(usize),
    /// No session is live and none is to start; nothing happens.
    Ignored,
}

/// What `start_or_forward` does to the sessions `s` with the key, whether
/// the interaction would start on the matcher, and a fresh channel.
pub open spec fn start_or_forward_spec<S>(
    s: Seq<Session<S>>,
    key: SessionKey,
    should_start: bool,
    channel: S,
) -> (Seq<Session<S>>, SessionAction) {
    match find_session(s, key) {
        Some(i) => (s, SessionAction::Forward(i as usize)),
        None => if should_start {
            (s.push(Session { key, channel }), SessionAction::Started)
        } else {
            (s, SessionAction::Ignored)
        },
    }
}

/// The sessions `s` without the session of `key`.
pub open spec fn finish_spec<S>(s: Seq<Session<S>>, key: SessionKey) -> Seq<Session<S>> {
    match find_session(s, key) {
        Some(i) => s.remove(i),
        None => s,
    }
}

proof fn lemma_find_session<S>(s: Seq<Session<S>>, key: SessionKey, k: int)
    requires
        keys_unique(s),
        0 <= k < s.len(),
        same_key(s[k].key, key),
    ensures
        find_session(s, key) == Some(k),
{
    let c = choose|i: int| 0 <= i < s.len() && same_key(s[i].key, key);
    assert(0 <= c < s.len() && same_key(s[c].key, key));
    if c != k {
        assert(!same_key(s[c].key, s[k].key));
    }
}

/// The live conversations, at most one for each key.
pub struct SessionRegistry<S> {
    sessions: Vec<Session<S>>,
}

impl<S> View for SessionRegistry<S> {
    type V = Seq<Session<S>>;

    closed spec fn view(&self) -> Seq<Session<S>> {
        self.sessions@
    }
}

impl<S> SessionRegistry<S> {
    pub fn new() -> (r: Self)
        ensures
            r@ == Seq::<Session<S>>::empty(),
            keys_unique(r@),
    {
        SessionRegistry { sessions: Vec::new() }
    }

    fn position(&self, key: &SessionKey) -> (r: Option<usize>)
        requires
            keys_unique(self@),
        ensures
            match r {
                Some(i) => find_session(self@, *key) == Some(i as int),
                None => find_session(self@, *key) is None,
            },
    {
        let n = self.sessions.len();
        let mut i: usize = 0;
        while i < n
            invariant
                n == self.sessions@.len(),
                i <= n,
                keys_unique(self.sessions@),
                forall|j: int| 0 <= j < i ==> !same_key(#[trigger] self.sessions@[j].key, *key),
            decreases n - i,
        {
            let s = &self.sessions[i];
            if str_eq(s.key.platform.as_str(), key.platform.as_str()) && str_eq(
                s.key.user_id.as_str(),
                key.user_id.as_str(),
            ) {
                proof {
                    lemma_find_session(self.sessions@, *key, i as int);
                }
                return Some(i);
            }
            i = i + 1;
        }
        None
    }

    /// Starts a session for the key if none is live and the interaction
    /// starts on this matcher (recording `channel`), or forwards to the live
    /// session of the key; otherwise does nothing. The check and the
    /// change are one step.
    pub fn start_or_forward(&mut self, key: SessionKey, should_start: bool, channel: S) -> (r:
        SessionAction)
        requires
            keys_unique(old(self)@),
        ensures
            keys_unique(final(self)@),
            (final(self)@, r) == start_or_forward_spec(old(self)@, key, should_start, channel),
    {
        match self.position(&key) {
            Some(i) => SessionAction::Forward(i),
            None => {
                if should_start {
                    let ghost before = self.sessions@;
                    let ghost k = key;
                    assert forall|i: int, j: int|
                        0 <= i < before.len() + 1 && 0 <= j < before.len() + 1 && i != j implies !same_key(
                        before.push(Session { key: k, channel })[i].key,
                        before.push(Session { key: k, channel })[j].key,
                    ) by {
                        if i < before.len() && j < before.len() {
                        } else if i == before.len() {
                            assert(!same_key(before[j].key, k));
                        } else {
                            assert(!same_key(before[i].key, k));
                        }
                    }
                    self.sessions.push(Session { key, channel });
                    SessionAction::Started
                } else {
                    SessionAction::Ignored
                }
            },
        }
    }

    /// The number of live sessions.
    pub fn len(&self) -> (r: usize)
        ensures
            r == self@.len(),
    {
        self.sessions.len()
    }

    /// The sending end of the channel of the session at a position.
    pub fn channel(&self, index: usize) -> (r: &S)
        requires
            index < self@.len(),
        ensures
            *r == self@[index as int].channel,
    {
        &self.sessions[index].channel
    }

    /// Ends the session of the key, once its handling routine has returned;
    /// its channel comes back. Later matchers of the key find no session.
    pub fn finish(&mut self, key: &SessionKey) -> (r: Option<S>)
        requires
            keys_unique(old(self)@),
        ensures
            keys_unique(final(self)@),
            final(self)@ == finish_spec(old(self)@, *key),
            match find_session(old(self)@, *key) {
                Some(i) => r == Some(old(self)@[i].channel),
                None => r is None,
            },
    {
        match self.position(key) {
            Some(i) => {
                let ghost before = self.sessions@;
                assert forall|a: int, b: int|
                    0 <= a < before.len() - 1 && 0 <= b < before.len() - 1 && a != b implies !same_key(
                    before.remove(i as int)[a].key,
                    before.remove(i as int)[b].key,
                ) by {
                    let a2 = if a < i { a } else { a + 1 };
                    let b2 = if b < i { b } else { b + 1 };
                    assert(before.remove(i as int)[a] == before[a2]);
                    assert(before.remove(i as int)[b] == before[b2]);
                }
                let s = self.sessions.remove(i);
                Some(s.channel)
            },
            None => None,
        }
    }
}

/// A second matcher of a live conversation joins it rather than starting
/// another, and once the conversation has ended a matcher of the same key
/// starts a new one.
pub proof fn law_one_session_per_key<S>(
    s0: Seq<Session<S>>,
    key: SessionKey,
    second_starts: bool,
    c1: S,
    c2: S,
    c3: S,
)
    requires
        keys_unique(s0),
        find_session(s0, key) is None,
    ensures
        ({
            let (s1, a1) = start_or_forward_spec(s0, key, true, c1);
            let (s2, a2) = start_or_forward_spec(s1, key, second_starts, c2);
            let s3 = finish_spec(s2, key);
            let (s4, a4) = start_or_forward_spec(s3, key, true, c3);
            &&& a1 == SessionAction::Started
            &&& a2 == SessionAction::Forward(s0.len() as usize)
            &&& s2 == s1
            &&& s1[s0.len() as int].channel == c1
            &&& s3 == s0
            &&& a4 == SessionAction::Started
            &&& s4 == s0.push(Session { key, channel: c3 })
        }),
{
    let s1 = s0.push(Session { key, channel: c1 });
    assert(keys_unique(s1)) by {
        assert forall|i: int, j: int|
            0 <= i < s1.len() && 0 <= j < s1.len() && i != j implies !same_key(s1[i].key, s1[j].key) by {
            if i < s0.len() && j < s0.len() {
            } else if i == s0.len() {
                assert(!same_key(s0[j].key, key));
            } else {
                assert(!same_key(s0[i].key, key));
            }
        }
    }
    lemma_find_session(s1, key, s0.len() as int);
    assert(s1.remove(s0.len() as int) =~= s0);
}

impl<R, B> Matcher<R, B> {
    /// The key of the conversation the matcher belongs to, given the
    /// platform of its connector: the platform and the user the event is
    /// about; a matcher about no user belongs to none.
    pub fn session_key(&self, platform: &str) -> (r: Option<SessionKey>)
        ensures
            match crate::matcher::user_of(*self.event) {
                Some(u) => r matches Some(k) && k.platform@ == platform@ && k.user_id@ == u.id@,
                None => r is None,
            },
    {
        match self.try_get_user() {
            Some(u) => Some(SessionKey { platform: platform.to_owned(), user_id: u.id.clone() }),
            None => None,
        }
    }
}

} // verus!
