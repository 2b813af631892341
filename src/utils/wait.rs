use vstd::prelude::*;

use crate::matcher::Matcher;
use crate::text::{lowercase, str_eq};

verus! {

/// Why a wait ended without a matcher.
#[derive(Clone, Copy, Debug, PartialEq, Eq, Structural)]
pub enum WaitError {
    /// The deadline passed first.
    Timeout,
    /// The bus closed first.
    Closed,
    /// More inputs failed to parse than the retries allow.
    MaxRetriesExceeded,
    /// The matcher that a wait was to follow names no user.
    NoUser,
}

/// What the caller of a wait has seen since the last step.
#[derive(Clone, Copy, Debug, PartialEq, Eq, Structural)]
pub enum WaitEvent {
    /// The deadline passed while receiving.
    Elapsed,
    /// The bus closed.
    Closed,
    /// The receiver fell behind and skipped matchers; nothing is lost that
    /// matters to the wait.
    Lagged,
    /// A matcher came that the wait does not look for.
    Skipped,
    /// A matcher came that the wait looks for (and whose text parsed, for a
    /// typed wait).
    Matched,
    /// A matcher came that the typed wait looks for, but its text did not
    /// parse.
    Invalid,
}

/// What the caller does next.
#[derive(Clone, Copy, Debug, PartialEq, Eq, Structural)]
pub enum WaitStep {
    /// Receive again, within what is left of the deadline.
    Continue,
    /// Tell the user the input was invalid, then receive again.
    Retry,
    /// The last matcher is the result.
    Accept,
    /// The wait failed.
    Fail(WaitError),
    /// The wait had already ended; receive nothing more.
    Finished,
}

/// A bounded wait for the next matching matcher, with one deadline for the
/// whole wait and a budget of retries for inputs that do not parse. Times
/// are in milliseconds on any clock that does not go back.
#[derive(Clone, Copy, Debug, PartialEq, Eq, Structural)]
pub struct Wait {
    pub deadline: u64,
    pub max_retries: usize,
    pub invalid: usize,
    pub finished: bool,
}

/// One step of a wait.
pub open spec fn wait_step(w: Wait, ev: WaitEvent) -> (Wait, WaitStep) {
    if w.finished {
        (w, WaitStep::Finished)
    } else {
        match ev {
            WaitEvent::Elapsed => (Wait { finished: true, ..w }, WaitStep::Fail(WaitError::Timeout)),
            WaitEvent::Closed => (Wait { finished: true, ..w }, WaitStep::Fail(WaitError::Closed)),
            WaitEvent::Lagged => (w, WaitStep::Continue),
            WaitEvent::Skipped => (w, WaitStep::Continue),
            WaitEvent::Matched => (Wait { finished: true, ..w }, WaitStep::Accept),
            WaitEvent::Invalid => if w.invalid >= w.max_retries {
                (Wait { finished: true, ..w }, WaitStep::Fail(WaitError::MaxRetriesExceeded))
            } else {
                (Wait { invalid: (w.invalid + 1) as usize, ..w }, WaitStep::Retry)
            },
        }
    }
}

/// The steps that a wait answers the events `evs` with, one each.
pub open spec fn run_wait(w: Wait, evs: Seq<WaitEvent>) -> Seq<WaitStep>
    decreases evs.len(),
{
    if evs.len() == 0 {
        Seq::empty()
    } else {
        let (next, s) = wait_step(w, evs[0]);
        seq![s] + run_wait(next, evs.drop_first())
    }
}

impl Wait {
    /// A wait that starts at `now` and ends at `now + timeout` (or at the
    /// end of the clock), allowing `max_retries` invalid inputs.
    pub fn new(now: u64, timeout: u64, max_retries: usize) -> (r: Wait)
        ensures
            r.deadline == if now + timeout <= u64::MAX {
                (now + timeout) as u64
            } else {
                u64::MAX
            },
            r.max_retries == max_retries,
            r.invalid == 0,
            !r.finished,
    {
        Wait { deadline: now.saturating_add(timeout), max_retries, invalid: 0, finished: false }
    }

    /// How long the caller may still receive at `now`.
    pub fn remaining(&self, now: u64) -> (r: u64)
        ensures
            r == if now < self.deadline {
                (self.deadline - now) as u64
            } else {
                0
            },
    {
        self.deadline.saturating_sub(now)
    }

    /// Advances the wait by one event.
    pub fn on_event(&mut self, ev: WaitEvent) -> (r: WaitStep)
        ensures
            (*final(self), r) == wait_step(*old(self), ev),
    {
        if self.finished {
            return WaitStep::Finished;
        }
        match ev {
            WaitEvent::Elapsed => {
                self.finished = true;
                WaitStep::Fail(WaitError::Timeout)
            },
            WaitEvent::Closed => {
                self.finished = true;
                WaitStep::Fail(WaitError::Closed)
            },
            WaitEvent::Lagged => WaitStep::Continue,
            WaitEvent::Skipped => WaitStep::Continue,
            WaitEvent::Matched => {
                self.finished = true;
                WaitStep::Accept
            },
            WaitEvent::Invalid => {
                if self.invalid >= self.max_retries {
                    self.finished = true;
                    WaitStep::Fail(WaitError::MaxRetriesExceeded)
                } else {
                    self.invalid = self.invalid + 1;
                    WaitStep::Retry
                }
            },
        }
    }
}

/// A fresh wait that allows `max_retries` invalid inputs gives up at the
/// invalid input after the last retry: each of the first `max_retries`
/// invalid inputs is answered with a retry, the next one with
/// `MaxRetriesExceeded`, and every event after that with `Finished`, so no
/// later input is ever taken.
pub proof fn law_retries_exhausted(w: Wait, evs: Seq<WaitEvent>)
    requires
        !w.finished,
        w.invalid == 0,
        evs.len() > w.max_retries + 1,
        forall|i: int| 0 <= i <= w.max_retries ==> evs[i] == WaitEvent::Invalid,
    ensures
        run_wait(w, evs).len() == evs.len(),
        forall|i: int| 0 <= i < w.max_retries ==> #[trigger] run_wait(w, evs)[i] == WaitStep::Retry,
        run_wait(w, evs)[w.max_retries as int] == WaitStep::Fail(WaitError::MaxRetriesExceeded),
        forall|i: int|
            w.max_retries < i < evs.len() ==> #[trigger] run_wait(w, evs)[i] == WaitStep::Finished,
{
    lemma_invalid_run(w, evs);
}

proof fn lemma_invalid_run(w: Wait, evs: Seq<WaitEvent>)
    requires
        !w.finished,
        w.invalid <= w.max_retries,
        evs.len() > w.max_retries - w.invalid,
        forall|i: int| 0 <= i <= w.max_retries - w.invalid ==> evs[i] == WaitEvent::Invalid,
    ensures
        run_wait(w, evs).len() == evs.len(),
        forall|i: int|
            0 <= i < w.max_retries - w.invalid ==> #[trigger] run_wait(w, evs)[i] == WaitStep::Retry,
        run_wait(w, evs)[w.max_retries - w.invalid] == WaitStep::Fail(WaitError::MaxRetriesExceeded),
        forall|i: int|
            w.max_retries - w.invalid < i < evs.len() ==> #[trigger] run_wait(w, evs)[i]
                == WaitStep::Finished,
    decreases evs.len(),
{
    let all = run_wait(w, evs);
    let rest_e = evs.drop_first();
    assert(evs[0] == WaitEvent::Invalid);
    let (next, s) = wait_step(w, evs[0]);
    assert(all == seq![s] + run_wait(next, rest_e));
    if w.invalid >= w.max_retries {
        lemma_finished_run(next, rest_e);
        let rest = run_wait(next, rest_e);
        assert forall|i: int| w.max_retries - w.invalid < i < evs.len() implies #[trigger] all[i]
            == WaitStep::Finished by {
            assert(all[i] == rest[i - 1]);
        }
    } else {
        assert forall|i: int| 0 <= i <= next.max_retries - next.invalid implies rest_e[i]
            == WaitEvent::Invalid by {
            assert(rest_e[i] == evs[i + 1]);
        }
        lemma_invalid_run(next, rest_e);
        let rest = run_wait(next, rest_e);
        assert forall|i: int| 0 <= i < w.max_retries - w.invalid implies #[trigger] all[i]
            == WaitStep::Retry by {
            if i > 0 {
                assert(all[i] == rest[i - 1]);
            }
        }
        assert(all[w.max_retries - w.invalid] == rest[next.max_retries - next.invalid]);
        assert forall|i: int| w.max_retries - w.invalid < i < evs.len() implies #[trigger] all[i]
            == WaitStep::Finished by {
            assert(all[i] == rest[i - 1]);
        }
    }
}

proof fn lemma_finished_run(w: Wait, evs: Seq<WaitEvent>)
    requires
        w.finished,
    ensures
        run_wait(w, evs).len() == evs.len(),
        forall|i: int| 0 <= i < evs.len() ==> #[trigger] run_wait(w, evs)[i] == WaitStep::Finished,
    decreases evs.len(),
{
    if evs.len() > 0 {
        lemma_finished_run(w, evs.drop_first());
        let all = run_wait(w, evs);
        let rest = run_wait(w, evs.drop_first());
        assert(all == seq![WaitStep::Finished] + rest);
        assert forall|i: int| 0 <= i < evs.len() implies #[trigger] all[i] == WaitStep::Finished by {
            if i > 0 {
                assert(all[i] == rest[i - 1]);
            }
        }
    }
}

/// A wait for matchers that never come ends only by its deadline: however
/// many matchers it does not look for arrive (or get skipped by lag), it
/// keeps receiving, and the deadline ends it with `Timeout`.
pub proof fn law_unmatched_wait_times_out(w: Wait, evs: Seq<WaitEvent>)
    requires
        !w.finished,
        evs.len() > 0,
        evs.last() == WaitEvent::Elapsed,
        forall|i: int|
            0 <= i < evs.len() - 1 ==> evs[i] == WaitEvent::Skipped || evs[i] == WaitEvent::Lagged,
    ensures
        run_wait(w, evs).len() == evs.len(),
        forall|i: int| 0 <= i < evs.len() - 1 ==> #[trigger] run_wait(w, evs)[i] == WaitStep::Continue,
        run_wait(w, evs).last() == WaitStep::Fail(WaitError::Timeout),
    decreases evs.len(),
{
    let all = run_wait(w, evs);
    let rest_e = evs.drop_first();
    let (next, s) = wait_step(w, evs[0]);
    assert(all == seq![s] + run_wait(next, rest_e));
    if evs.len() == 1 {
        assert(rest_e.len() == 0);
    } else {
        assert(next == w);
        assert(rest_e.last() == evs.last());
        assert forall|i: int| 0 <= i < rest_e.len() - 1 implies rest_e[i] == WaitEvent::Skipped
            || rest_e[i] == WaitEvent::Lagged by {
            assert(rest_e[i] == evs[i + 1]);
        }
        law_unmatched_wait_times_out(next, rest_e);
        let rest = run_wait(next, rest_e);
        assert forall|i: int| 0 <= i < evs.len() - 1 implies #[trigger] all[i]
            == WaitStep::Continue by {
            if i > 0 {
                assert(all[i] == rest[i - 1]);
            }
        }
        assert(all.last() == rest.last());
    }
}

/// One deadline governs the whole wait: no step, a retry included, moves
/// it, so what is left at any moment is the timeout less the time gone by
/// since the start.
pub proof fn law_deadline_not_reset(w: Wait, evs: Seq<WaitEvent>)
    ensures
        forall|i: int| 0 <= i <= evs.len() ==> #[trigger] wait_after(w, evs, i).deadline == w.deadline,
{
    assert forall|i: int| 0 <= i <= evs.len() implies #[trigger] wait_after(w, evs, i).deadline
        == w.deadline by {
        lemma_deadline_kept(w, evs, i);
    }
}

/// The wait after it has taken the first `n` of `evs`.
pub open spec fn wait_after(w: Wait, evs: Seq<WaitEvent>, n: int) -> Wait
    decreases n,
{
    if n <= 0 || evs.len() == 0 {
        w
    } else {
        wait_after(wait_step(w, evs[0]).0, evs.drop_first(), n - 1)
    }
}

proof fn lemma_deadline_kept(w: Wait, evs: Seq<WaitEvent>, n: int)
    ensures
        wait_after(w, evs, n).deadline == w.deadline,
    decreases n,
{
    if n > 0 && evs.len() > 0 {
        lemma_deadline_kept(wait_step(w, evs[0]).0, evs.drop_first(), n - 1);
    }
}

/// The text that tells a user an input was invalid: the application's
/// template, then the parse error; the last such text also says that the
/// wait has given up.
pub open spec fn notice_text(template: Seq<char>, error: Seq<char>, last: bool) -> Seq<char> {
    template + "\nError: "@ + error + if last {
        "\n\nMax retries exceeded, exited."@
    } else {
        Seq::empty()
    }
}

/// Builds the text that tells a user an input was invalid.
pub fn retry_notice(template: &str, error: &str, last: bool) -> (r: String)
    ensures
        r@ == notice_text(template@, error@, last),
{
    let mut out = template.to_owned();
    out.append("\nError: ");
    out.append(error);
    if last {
        out.append("\n\nMax retries exceeded, exited.");
    } else {
        assert(out@ + Seq::<char>::empty() =~= out@);
    }
    out
}

/// What a wait that follows one user looks for: matchers of the same
/// platform that are about the same user.
#[derive(Clone, Debug, PartialEq, Eq)]
pub struct UserFilter {
    pub platform: String,
    pub user_id: String,
}

/// A matcher whose connector is of `platform_of_m` comes from the platform
/// and is about the user.
pub open spec fn from_user<R, B>(
    m: Matcher<R, B>,
    platform_of_m: Seq<char>,
    platform: Seq<char>,
    user_id: Seq<char>,
) -> bool {
    &&& platform_of_m == platform
    &&& crate::matcher::user_of(*m.event) matches Some(u)
    &&& u.id@ == user_id
}

impl UserFilter {
    /// The filter for the user that `init` is about, on the platform of
    /// `init`'s connector; a matcher about no user cannot be followed.
    pub fn of<R, B>(init: &Matcher<R, B>, platform: &str) -> (r: Result<UserFilter, WaitError>)
        ensures
            match crate::matcher::user_of(*init.event) {
                Some(u) => r matches Ok(f) && f.platform@ == platform@ && f.user_id@ == u.id@,
                None => r == Err::<UserFilter, WaitError>(WaitError::NoUser),
            },
    {
        match init.try_get_user() {
            Some(u) => Ok(UserFilter { platform: platform.to_owned(), user_id: u.id.clone() }),
            None => Err(WaitError::NoUser),
        }
    }

    /// Whether the matcher, whose connector is of `platform`, is from the
    /// followed user.
    pub fn accepts<R, B>(&self, m: &Matcher<R, B>, platform: &str) -> (r: bool)
        ensures
            r == from_user(*m, platform@, self.platform@, self.user_id@),
    {
        if !str_eq(platform, self.platform.as_str()) {
            return false;
        }
        match m.try_get_user() {
            Some(u) => str_eq(u.id.as_str(), self.user_id.as_str()),
            None => false,
        }
    }

    /// Whether the matcher, whose connector is of `platform`, is a message
    /// from the followed user.
    pub fn accepts_message<R, B>(&self, m: &Matcher<R, B>, platform: &str) -> (r: bool)
        ensures
            r == (from_user(*m, platform@, self.platform@, self.user_id@)
                && crate::matcher::message_of(*m.event) is Some),
    {
        self.accepts(m, platform) && m.try_get_message().is_some()
    }
}

/// A yes-or-no answer, read leniently from text.
#[derive(Clone, Copy, Debug, PartialEq, Eq, Structural)]
pub struct EasyBool(pub bool);

/// The answer that a lower-case text gives, if it gives one.
pub open spec fn easy_bool_of(lowered: Seq<char>) -> Option<bool> {
    if lowered == "y"@ || lowered == "yes"@ || lowered == "t"@ || lowered == "true"@ || lowered
        == "1"@ {
        Some(true)
    } else if lowered == "f"@ || lowered == "false"@ || lowered == "n"@ || lowered == "no"@
        || lowered == "0"@ {
        Some(false)
    } else {
        None
    }
}

/// A text that reads as no yes-or-no answer.
#[derive(Clone, Copy, Debug, PartialEq, Eq, Structural)]
pub struct InvalidEasyBool;

impl EasyBool {
    /// Reads a text that is already in lower case.
    pub fn from_lowered(lowered: &str) -> (r: Option<EasyBool>)
        ensures
            match easy_bool_of(lowered@) {
                Some(b) => r == Some(EasyBool(b)),
                None => r is None,
            },
    {
        if str_eq(lowered, "y") || str_eq(lowered, "yes") || str_eq(lowered, "t") || str_eq(
            lowered,
            "true",
        ) || str_eq(lowered, "1") {
            Some(EasyBool(true))
        } else if str_eq(lowered, "f") || str_eq(lowered, "false") || str_eq(lowered, "n")
            || str_eq(lowered, "no") || str_eq(lowered, "0") {
            Some(EasyBool(false))
        } else {
            None
        }
    }

    /// Reads a text in any case.
    pub fn parse(s: &str) -> (r: Result<EasyBool, InvalidEasyBool>)
        ensures
            match easy_bool_of(crate::text::lower_of(s@)) {
                Some(b) => r == Ok::<EasyBool, InvalidEasyBool>(EasyBool(b)),
                None => r == Err::<EasyBool, InvalidEasyBool>(InvalidEasyBool),
            },
    {
        let lowered = lowercase(s);
        match EasyBool::from_lowered(lowered.as_str()) {
            Some(b) => Ok(b),
            None => Err(InvalidEasyBool),
        }
    }
}

impl std::str::FromStr for EasyBool {
    type Err = InvalidEasyBool;

    fn from_str(s: &str) -> Result<EasyBool, InvalidEasyBool> {
        EasyBool::parse(s)
    }
}

impl From<EasyBool> for bool {
    fn from(b: EasyBool) -> (r: bool)
        ensures
            r == b.0,
    {
        b.0
    }
}

impl vstd::std_specs::convert::FromSpecImpl<EasyBool> for bool {
    open spec fn obeys_from_spec() -> bool {
        true
    }

    open spec fn from_spec(v: EasyBool) -> bool {
        v.0
    }
}

} // verus!
