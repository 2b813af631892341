use vstd::prelude::*;

verus! {

/// A filter and its priority. Filters of lower priority run first.
pub struct FilterEntry<F> {
    pub priority: u8,
    pub filter: F,
}

/// Where a filter of priority `p` goes in `s`: after the last entry whose
/// priority is at most `p`, so that ties keep the order of registration.
pub open spec fn place<F>(s: Seq<FilterEntry<F>>, p: u8) -> int
    decreases s.len(),
{
    if s.len() == 0 {
        0
    } else if s.last().priority <= p {
        s.len() as int
    } else {
        place(s.drop_last(), p)
    }
}

/// The chain that registering `entries` one after another gives.
pub open spec fn registered<F>(entries: Seq<FilterEntry<F>>) -> Seq<FilterEntry<F>>
    decreases entries.len(),
{
    if entries.len() == 0 {
        Seq::empty()
    } else {
        let s = registered(entries.drop_last());
        s.insert(place(s, entries.last().priority), entries.last())
    }
}

/// The entries are in ascending order of priority.
pub open spec fn sorted_by_priority<F>(s: Seq<FilterEntry<F>>) -> bool {
    forall|i: int, j: int| 0 <= i < j < s.len() ==> s[i].priority <= s[j].priority
}

/// What the caller does next while a matcher goes through the chain.
#[derive(Clone, Copy, Debug, PartialEq, Eq, Structural)]
pub enum FilterStep {
    /// Run the filter at this position and report its verdict.
    Evaluate(usize),
    /// Every filter passed the matcher.
    Admit,
    /// A filter rejected the matcher; no later filter runs.
    Reject,
}

/// The step after the filter at `index` of a chain of `len` filters gave
/// `passed`.
pub open spec fn step_after(len: nat, index: nat, passed: bool) -> FilterStep {
    if !passed {
        FilterStep::Reject
    } else if index + 1 < len {
        FilterStep::Evaluate((index + 1) as usize)
    } else {
        FilterStep::Admit
    }
}

/// The first step of a chain of `len` filters.
pub open spec fn first_step(len: nat) -> FilterStep {
    if len == 0 {
        FilterStep::Admit
    } else {
        FilterStep::Evaluate(0)
    }
}

/// The verdicts, in chain order, that a matcher gets when the filters from
/// `index` on answer `verdicts` (the first answer is the filter's at
/// `index`); the chain stops at the first rejection.
pub open spec fn chain_outcome(len: nat, index: nat, verdicts: Seq<bool>) -> FilterStep
    decreases verdicts.len(),
{
    if verdicts.len() == 0 {
        FilterStep::Evaluate(index as usize)
    } else {
        match step_after(len, index, verdicts[0]) {
            FilterStep::Evaluate(next) => chain_outcome(len, next as nat, verdicts.drop_first()),
            done => done,
        }
    }
}

proof fn lemma_place<F>(s: Seq<FilterEntry<F>>, p: u8)
    ensures
        0 <= place(s, p) <= s.len(),
        forall|j: int| place(s, p) <= j < s.len() ==> s[j].priority > p,
        sorted_by_priority(s) ==> forall|j: int| 0 <= j < place(s, p) ==> s[j].priority <= p,
    decreases s.len(),
{
    if s.len() > 0 {
        let t = s.drop_last();
        if s.last().priority > p {
            lemma_place(t, p);
            assert forall|j: int| place(s, p) <= j < s.len() implies s[j].priority > p by {
                if j < t.len() {
                    assert(t[j] == s[j]);
                }
            }
            if sorted_by_priority(s) {
                assert(sorted_by_priority(t)) by {
                    assert forall|a: int, b: int| 0 <= a < b < t.len() implies t[a].priority
                        <= t[b].priority by {
                        assert(t[a] == s[a] && t[b] == s[b]);
                    }
                }
                assert forall|j: int| 0 <= j < place(s, p) implies s[j].priority <= p by {
                    assert(t[j] == s[j]);
                }
            }
        } else {
            if sorted_by_priority(s) {
                assert forall|j: int| 0 <= j < place(s, p) implies s[j].priority <= p by {
                    if j < s.len() - 1 {
                        assert(s[j].priority <= s[s.len() - 1].priority);
                    }
                }
            }
        }
    }
}

proof fn lemma_insert_sorted<F>(s: Seq<FilterEntry<F>>, e: FilterEntry<F>)
    requires
        sorted_by_priority(s),
    ensures
        sorted_by_priority(s.insert(place(s, e.priority), e)),
{
    lemma_place(s, e.priority);
}

proof fn lemma_registered_sorted<F>(entries: Seq<FilterEntry<F>>)
    ensures
        sorted_by_priority(registered(entries)),
        registered(entries).len() == entries.len(),
    decreases entries.len(),
{
    if entries.len() > 0 {
        lemma_registered_sorted(entries.drop_last());
        let s = registered(entries.drop_last());
        lemma_insert_sorted(s, entries.last());
        lemma_place(s, entries.last().priority);
    }
}

/// The filter chain: filters kept in ascending order of priority, ties in
/// the order they were added.
pub struct FilterPool<F> {
    filters: Vec<FilterEntry<F>>,
}

impl<F> View for FilterPool<F> {
    type V = Seq<FilterEntry<F>>;

    closed spec fn view(&self) -> Seq<FilterEntry<F>> {
        self.filters@
    }
}

impl<F> FilterPool<F> {
    /// An empty chain, which admits every matcher.
    pub fn new() -> (r: Self)
        ensures
            r@ == Seq::<FilterEntry<F>>::empty(),
            sorted_by_priority(r@),
    {
        FilterPool { filters: Vec::new() }
    }

    /// The chain that adding each of `filters`, in order, gives.
    pub fn build(filters: Vec<FilterEntry<F>>) -> (r: Self)
        ensures
            r@ == registered(filters@),
            sorted_by_priority(r@),
    {
        let ghost all = filters@;
        let mut pool = FilterPool::new();
        let mut rest = filters;
        let ghost mut taken: Seq<FilterEntry<F>> = Seq::empty();
        let ghost n = all.len();
        while rest.len() > 0
            invariant
                all.len() == n,
                taken.len() + rest@.len() == n,
                taken == all.subrange(0, taken.len() as int),
                rest@ == all.subrange(taken.len() as int, n as int),
                pool@ == registered(taken),
                sorted_by_priority(pool@),
            decreases rest@.len(),
        {
            let e = rest.remove(0);
            let ghost before = taken;
            proof {
                let k = taken.len() as int;
                assert(e == all[k]);
                taken = taken.push(e);
                assert(taken == all.subrange(0, k + 1));
                assert(taken.drop_last() == before);
            }
            pool.add_filter(e);
        }
        proof {
            assert(all.subrange(0, n as int) == all);
        }
        pool
    }

    /// Adds a filter after every filter of lower or equal priority.
    pub fn add_filter(&mut self, entry: FilterEntry<F>)
        requires
            sorted_by_priority(old(self)@),
        ensures
            final(self)@ == old(self)@.insert(place(old(self)@, entry.priority), entry),
            final(self)@.len() == old(self)@.len() + 1,
            sorted_by_priority(final(self)@),
    {
        let p = entry.priority;
        let mut i = self.filters.len();
        proof {
            assert(self.filters@.subrange(0, i as int) == self.filters@);
        }
        while i > 0 && self.filters[i - 1].priority > p
            invariant
                i <= self.filters@.len(),
                place(self.filters@, p) == place(self.filters@.subrange(0, i as int), p),
            decreases i,
        {
            proof {
                let s = self.filters@.subrange(0, i as int);
                assert(s.drop_last() == self.filters@.subrange(0, i - 1));
            }
            i = i - 1;
        }
        proof {
            assert(self.filters@.subrange(0, self.filters@.len() as int) == self.filters@);
            lemma_insert_sorted(self.filters@, entry);
            lemma_place(self.filters@, p);
        }
        self.filters.insert(i, entry);
    }

    pub fn len(&self) -> (r: usize)
        ensures
            r == self@.len(),
    {
        self.filters.len()
    }

    /// The filter at a position of the chain.
    pub fn get(&self, index: usize) -> (r: &F)
        requires
            index < self@.len(),
        ensures
            *r == self@[index as int].filter,
    {
        &self.filters[index].filter
    }

    pub fn priority(&self, index: usize) -> (r: u8)
        requires
            index < self@.len(),
        ensures
            r == self@[index as int].priority,
    {
        self.filters[index].priority
    }

    /// Where a matcher starts in the chain.
    pub fn start(&self) -> (r: FilterStep)
        ensures
            r == first_step(self@.len()),
    {
        if self.filters.len() == 0 {
            FilterStep::Admit
        } else {
            FilterStep::Evaluate(0)
        }
    }

    /// What follows the verdict of the filter at `index`: the next filter
    /// if it passed and one is left, else the chain's outcome.
    pub fn filter(&self, index: usize, passed: bool) -> (r: FilterStep)
        requires
            index < self@.len(),
        ensures
            r == step_after(self@.len(), index as nat, passed),
    {
        if !passed {
            FilterStep::Reject
        } else if index < self.filters.len() - 1 {
            FilterStep::Evaluate(index + 1)
        } else {
            FilterStep::Admit
        }
    }
}

/// Whatever the order in which filters are added, a filter of lower
/// priority stands before, and so runs before, one of higher priority.
pub proof fn law_lower_priority_runs_first<F>(entries: Seq<FilterEntry<F>>, i: int, j: int)
    requires
        0 <= i < registered(entries).len(),
        0 <= j < registered(entries).len(),
        registered(entries)[i].priority < registered(entries)[j].priority,
    ensures
        i < j,
{
    lemma_registered_sorted(entries);
}

/// A filter added to a chain goes after every filter of lower or equal
/// priority and before every filter of higher priority: among filters of
/// one priority, the order of registration is kept.
pub proof fn law_ties_keep_registration_order<F>(s: Seq<FilterEntry<F>>, e: FilterEntry<F>)
    requires
        sorted_by_priority(s),
    ensures
        forall|j: int| 0 <= j < place(s, e.priority) ==> s[j].priority <= e.priority,
        forall|j: int| place(s, e.priority) <= j < s.len() ==> s[j].priority > e.priority,
        s.insert(place(s, e.priority), e)[place(s, e.priority)] == e,
{
    lemma_place(s, e.priority);
}

/// For each position of the chain that registering `entries` gives, the
/// position in `entries` of the filter that stands there.
pub open spec fn registration_order<F>(entries: Seq<FilterEntry<F>>) -> Seq<int>
    decreases entries.len(),
{
    if entries.len() == 0 {
        Seq::empty()
    } else {
        let s = registered(entries.drop_last());
        registration_order(entries.drop_last()).insert(
            place(s, entries.last().priority),
            entries.len() - 1,
        )
    }
}

/// Registering filters keeps, among filters of one priority, the order in
/// which they were registered: each position of the chain holds one of the
/// registered filters, and of two filters of equal priority the one
/// registered first stands first.
pub proof fn law_registration_order_kept<F>(entries: Seq<FilterEntry<F>>)
    ensures
        registration_order(entries).len() == registered(entries).len(),
        registered(entries).len() == entries.len(),
        forall|k: int|
            0 <= k < entries.len() ==> 0 <= #[trigger] registration_order(entries)[k] < entries.len()
                && registered(entries)[k] == entries[registration_order(entries)[k]],
        forall|k1: int, k2: int|
            0 <= k1 < k2 < entries.len() && registered(entries)[k1].priority
                == registered(entries)[k2].priority ==> #[trigger] registration_order(entries)[k1]
                < #[trigger] registration_order(entries)[k2],
    decreases entries.len(),
{
    lemma_registered_sorted(entries);
    if entries.len() > 0 {
        let t = entries.drop_last();
        let e = entries.last();
        let n = entries.len() as int;
        law_registration_order_kept(t);
        lemma_registered_sorted(t);
        let s = registered(t);
        let o = registration_order(t);
        let p = place(s, e.priority);
        lemma_place(s, e.priority);
        let reg = registered(entries);
        let ord = registration_order(entries);
        assert(reg == s.insert(p, e));
        assert(ord == o.insert(p, n - 1));
        assert forall|k: int| 0 <= k < n implies 0 <= #[trigger] ord[k] < n && reg[k]
            == entries[ord[k]] by {
            if k < p {
                assert(reg[k] == s[k]);
                assert(ord[k] == o[k]);
                assert(t[o[k]] == entries[o[k]]);
            } else if k > p {
                assert(reg[k] == s[k - 1]);
                assert(ord[k] == o[k - 1]);
                assert(t[o[k - 1]] == entries[o[k - 1]]);
            }
        }
        assert forall|k1: int, k2: int|
            0 <= k1 < k2 < n && reg[k1].priority == reg[k2].priority implies #[trigger] ord[k1]
            < #[trigger] ord[k2] by {
            if k1 == p {
                assert(reg[k2] == s[k2 - 1]);
                assert(s[k2 - 1].priority > e.priority);
            } else if k2 == p {
                assert(ord[k1] == o[k1]);
            } else {
                let a = if k1 < p { k1 } else { k1 - 1 };
                let b = if k2 < p { k2 } else { k2 - 1 };
                assert(reg[k1] == s[a] && ord[k1] == o[a]);
                assert(reg[k2] == s[b] && ord[k2] == o[b]);
                assert(o[a] < o[b]);
            }
        }
    }
}

/// The chain runs its filters one after another from the first: with every
/// filter passing, the matcher is admitted after exactly `len` verdicts,
/// and after any shorter run the next filter to ask is the one that
/// follows.
pub proof fn law_chain_in_order(len: nat, verdicts: Seq<bool>)
    requires
        0 < len <= usize::MAX,
        verdicts.len() <= len,
        forall|i: int| 0 <= i < verdicts.len() ==> verdicts[i],
    ensures
        verdicts.len() == len ==> chain_outcome(len, 0, verdicts) == FilterStep::Admit,
        verdicts.len() < len ==> chain_outcome(len, 0, verdicts) == FilterStep::Evaluate(
            verdicts.len() as usize,
        ),
{
    lemma_chain_from(len, 0, verdicts);
}

proof fn lemma_chain_from(len: nat, index: nat, verdicts: Seq<bool>)
    requires
        len <= usize::MAX,
        index + verdicts.len() <= len,
        index < len,
        forall|i: int| 0 <= i < verdicts.len() ==> verdicts[i],
    ensures
        index + verdicts.len() == len ==> chain_outcome(len, index, verdicts) == FilterStep::Admit,
        index + verdicts.len() < len ==> chain_outcome(len, index, verdicts)
            == FilterStep::Evaluate((index + verdicts.len()) as usize),
    decreases verdicts.len(),
{
    if verdicts.len() > 0 {
        assert(verdicts[0]);
        if index + 1 < len {
            let rest = verdicts.drop_first();
            assert forall|i: int| 0 <= i < rest.len() implies rest[i] by {
                assert(rest[i] == verdicts[i + 1]);
            }
            lemma_chain_from(len, index + 1, rest);
        }
    }
}

/// A matcher that any filter rejects is never admitted: the chain ends in
/// a rejection at the first filter that says no.
pub proof fn law_rejection_stops_chain(len: nat, verdicts: Seq<bool>, k: int)
    requires
        len <= usize::MAX,
        0 <= k < verdicts.len(),
        k < len,
        !verdicts[k],
    ensures
        chain_outcome(len, 0, verdicts) == FilterStep::Reject,
{
    lemma_reject_from(len, 0, verdicts, k);
}

proof fn lemma_reject_from(len: nat, index: nat, verdicts: Seq<bool>, k: int)
    requires
        len <= usize::MAX,
        0 <= k < verdicts.len(),
        index + k < len,
        !verdicts[k],
    ensures
        chain_outcome(len, index, verdicts) == FilterStep::Reject,
    decreases verdicts.len(),
{
    if verdicts[0] && k > 0 {
        assert(verdicts.drop_first()[k - 1] == verdicts[k]);
        lemma_reject_from(len, index + 1, verdicts.drop_first(), k - 1);
    }
}

} // verus!
