use vstd::prelude::*;
use std::sync::Arc;

use crate::bot::{BotEntry, BotRegistry};
use crate::filter::{FilterEntry, FilterPool, FilterStep};
use crate::handler::{EventHandlerPool, Handler};

verus! {

/// Where the run loop stands.
#[derive(Clone, Copy, Debug, PartialEq, Eq, Structural)]
pub enum LoopStage {
    /// Waiting for the next matcher on the bus.
    Receiving,
    /// The current matcher waits for the verdict of the filter at this
    /// position.
    Filtering(usize),
    /// The bus has closed; the loop is over.
    Closed,
}

/// What the caller reports to the run loop.
#[derive(Clone, Copy, Debug, PartialEq, Eq, Structural)]
pub enum BusEvent {
    /// A matcher came off the bus; it is now the current matcher.
    Received,
    /// The receiver fell behind and matchers were skipped.
    Lagged,
    /// The bus has closed.
    Closed,
    /// The verdict of the filter that was asked for.
    Verdict(bool),
}

/// What the caller does next.
#[derive(Clone, Copy, Debug, PartialEq, Eq, Structural)]
pub enum LoopAction {
    /// Receive the next matcher (the current one, if any, is dropped).
    Receive,
    /// Ask the filter at this position about the current matcher.
    Evaluate(usize),
    /// Hand the current matcher to every reactive handler, then receive.
    Dispatch,
    /// Stop the loop.
    Stop,
}

/// One step of the run loop over a chain of `len` filters.
pub open spec fn loop_step(stage: LoopStage, len: nat, ev: BusEvent) -> (LoopStage, LoopAction) {
    match stage {
        LoopStage::Closed => (LoopStage::Closed, LoopAction::Stop),
        LoopStage::Receiving => match ev {
            BusEvent::Received => if len == 0 {
                (LoopStage::Receiving, LoopAction::Dispatch)
            } else {
                (LoopStage::Filtering(0), LoopAction::Evaluate(0))
            },
            BusEvent::Closed => (LoopStage::Closed, LoopAction::Stop),
            _ => (LoopStage::Receiving, LoopAction::Receive),
        },
        LoopStage::Filtering(i) => match ev {
            BusEvent::Verdict(passed) => match crate::filter::step_after(len, i as nat, passed) {
                FilterStep::Evaluate(j) => (LoopStage::Filtering(j), LoopAction::Evaluate(j)),
                FilterStep::Admit => (LoopStage::Receiving, LoopAction::Dispatch),
                FilterStep::Reject => (LoopStage::Receiving, LoopAction::Receive),
            },
            _ => (LoopStage::Filtering(i), LoopAction::Evaluate(i)),
        },
    }
}

/// The actions that the loop answers the verdicts `v` with, one each.
pub open spec fn feed_verdicts(stage: LoopStage, len: nat, v: Seq<bool>) -> Seq<LoopAction>
    decreases v.len(),
{
    if v.len() == 0 {
        Seq::empty()
    } else {
        let (next, a) = loop_step(stage, len, BusEvent::Verdict(v[0]));
        seq![a] + feed_verdicts(next, len, v.drop_first())
    }
}

/// The composition root: the connectors, the filter chain and the
/// handlers, and the state of the receive, filter and dispatch loop.
pub struct OxideBotManager<B, F, H> {
    bots: BotRegistry<B>,
    filter_pool: FilterPool<F>,
    handler_pool: EventHandlerPool<H>,
    stage: LoopStage,
}

impl<B, F, H> OxideBotManager<B, F, H> {
    /// The manager's parts fit together: the chain is in priority order,
    /// and a filter that a matcher waits on is in the chain.
    pub closed spec fn wf(&self) -> bool {
        &&& crate::filter::sorted_by_priority(self.filter_pool@)
        &&& (self.stage matches LoopStage::Filtering(i) ==> i < self.filter_pool@.len())
    }

    pub closed spec fn spec_stage(&self) -> LoopStage {
        self.stage
    }

    pub closed spec fn spec_filters(&self) -> Seq<FilterEntry<F>> {
        self.filter_pool@
    }

    pub closed spec fn spec_handlers(&self) -> Seq<H> {
        self.handler_pool@
    }

    pub closed spec fn spec_bots(&self) -> Seq<BotEntry<B>> {
        self.bots@
    }

    /// A manager with no connector, filter or handler, ready to receive.
    pub fn new() -> (r: Self)
        ensures
            r.wf(),
            r.spec_stage() == LoopStage::Receiving,
            r.spec_filters().len() == 0,
            r.spec_handlers().len() == 0,
            r.spec_bots().len() == 0,
    {
        OxideBotManager {
            bots: BotRegistry::new(),
            filter_pool: FilterPool::new(),
            handler_pool: EventHandlerPool::new(),
            stage: LoopStage::Receiving,
        }
    }

    /// A manager with the given connectors, handlers and filters; the
    /// active roles of the handlers come back for the caller to start.
    pub fn build<A>(
        bots: Vec<BotEntry<B>>,
        handlers: Vec<Handler<H, A>>,
        filters: Vec<FilterEntry<F>>,
    ) -> (r: (Self, Vec<A>))
        ensures
            r.0.wf(),
            r.0.spec_stage() == LoopStage::Receiving,
            r.0.spec_bots() == bots@,
            r.0.spec_handlers() == crate::handler::reactive_roles(handlers@),
            r.0.spec_filters() == crate::filter::registered(filters@),
            r.1@ == crate::handler::active_roles(handlers@),
    {
        let mut registry = BotRegistry::new();
        registry.add_bots(bots);
        assert(registry@ =~= bots@);
        let (handler_pool, active) = EventHandlerPool::build(handlers);
        let manager = OxideBotManager {
            bots: registry,
            filter_pool: FilterPool::build(filters),
            handler_pool,
            stage: LoopStage::Receiving,
        };
        (manager, active)
    }

    /// Registers a connector.
    pub fn bot(self, bot: BotEntry<B>) -> (r: Self)
        requires
            self.wf(),
        ensures
            r.wf(),
            r.spec_stage() == self.spec_stage(),
            r.spec_bots() == self.spec_bots().push(bot),
            r.spec_filters() == self.spec_filters(),
            r.spec_handlers() == self.spec_handlers(),
    {
        let mut s = self;
        let ghost b = bot;
        s.bots.add_bots(vec![bot]);
        assert(s.bots@ =~= self.bots@.push(b));
        s
    }

    /// Registers a handler; its active role, if any, comes back for the
    /// caller to start.
    pub fn handler<A>(self, handler: Handler<H, A>) -> (r: (Self, Option<A>))
        requires
            self.wf(),
        ensures
            r.0.wf(),
            r.0.spec_stage() == self.spec_stage(),
            r.0.spec_bots() == self.spec_bots(),
            r.0.spec_filters() == self.spec_filters(),
            r.0.spec_handlers() == (match handler.event_handler {
                Some(h) => self.spec_handlers().push(h),
                None => self.spec_handlers(),
            }),
            r.1 == handler.active_handler,
    {
        let mut s = self;
        let started = s.handler_pool.add_handler(handler);
        (s, started)
    }

    /// Adds a filter to the chain, after those of lower or equal priority.
    pub fn filter(self, entry: FilterEntry<F>) -> (r: Self)
        requires
            self.wf(),
        ensures
            r.wf(),
            r.spec_stage() == self.spec_stage(),
            r.spec_bots() == self.spec_bots(),
            r.spec_handlers() == self.spec_handlers(),
            r.spec_filters() == self.spec_filters().insert(
                crate::filter::place(self.spec_filters(), entry.priority),
                entry,
            ),
    {
        let mut s = self;
        s.filter_pool.add_filter(entry);
        s
    }

    /// The first registered connector of the platform `server` whose bot
    /// is `bot_id`.
    pub fn get_bot(&self, server: &str, bot_id: &str) -> (r: Option<Arc<B>>)
        ensures
            crate::bot::found_bot(r, self.spec_bots(), server@, bot_id@),
    {
        self.bots.get_bot(server, bot_id)
    }

    /// The number of filters in the chain.
    pub fn filter_count(&self) -> (r: usize)
        ensures
            r == self.spec_filters().len(),
    {
        self.filter_pool.len()
    }

    /// The filter that the current matcher is to be shown to.
    pub fn filter_at(&self, index: usize) -> (r: &F)
        requires
            index < self.spec_filters().len(),
        ensures
            *r == self.spec_filters()[index as int].filter,
    {
        self.filter_pool.get(index)
    }

    /// The reactive handlers that an admitted matcher goes to, once each.
    pub fn dispatch_targets(&self) -> (r: Vec<Arc<H>>)
        ensures
            r@.len() == self.spec_handlers().len(),
            forall|i: int| 0 <= i < r@.len() ==> *#[trigger] r@[i] == self.spec_handlers()[i],
    {
        self.handler_pool.handle()
    }

    /// Advances the run loop by one reported event, and says what to do
    /// next.
    pub fn on_event(&mut self, ev: BusEvent) -> (r: LoopAction)
        requires
            old(self).wf(),
        ensures
            final(self).wf(),
            (final(self).spec_stage(), r) == loop_step(
                old(self).spec_stage(),
                old(self).spec_filters().len(),
                ev,
            ),
            final(self).spec_filters() == old(self).spec_filters(),
            final(self).spec_handlers() == old(self).spec_handlers(),
            final(self).spec_bots() == old(self).spec_bots(),
    {
        let (stage, action) = match self.stage {
            LoopStage::Closed => (LoopStage::Closed, LoopAction::Stop),
            LoopStage::Receiving => match ev {
                BusEvent::Received => match self.filter_pool.start() {
                    FilterStep::Evaluate(i) => (LoopStage::Filtering(i), LoopAction::Evaluate(i)),
                    _ => (LoopStage::Receiving, LoopAction::Dispatch),
                },
                BusEvent::Closed => (LoopStage::Closed, LoopAction::Stop),
                _ => (LoopStage::Receiving, LoopAction::Receive),
            },
            LoopStage::Filtering(i) => match ev {
                BusEvent::Verdict(passed) => match self.filter_pool.filter(i, passed) {
                    FilterStep::Evaluate(j) => (LoopStage::Filtering(j), LoopAction::Evaluate(j)),
                    FilterStep::Admit => (LoopStage::Receiving, LoopAction::Dispatch),
                    FilterStep::Reject => (LoopStage::Receiving, LoopAction::Receive),
                },
                _ => (LoopStage::Filtering(i), LoopAction::Evaluate(i)),
            },
        };
        self.stage = stage;
        action
    }
}

proof fn lemma_receiving_never_dispatches(len: nat, v: Seq<bool>)
    ensures
        forall|j: int|
            0 <= j < v.len() ==> #[trigger] feed_verdicts(LoopStage::Receiving, len, v)[j]
                == LoopAction::Receive,
        feed_verdicts(LoopStage::Receiving, len, v).len() == v.len(),
    decreases v.len(),
{
    if v.len() > 0 {
        lemma_receiving_never_dispatches(len, v.drop_first());
        let rest = feed_verdicts(LoopStage::Receiving, len, v.drop_first());
        let all = feed_verdicts(LoopStage::Receiving, len, v);
        assert(all == seq![LoopAction::Receive] + rest);
        assert forall|j: int| 0 <= j < v.len() implies #[trigger] all[j] == LoopAction::Receive by {
            if j > 0 {
                assert(all[j] == rest[j - 1]);
            }
        }
    }
}

proof fn lemma_rejected_from(len: nat, i: nat, v: Seq<bool>, k: int)
    requires
        len <= usize::MAX,
        i < len,
        0 <= k < v.len(),
        i + k < len,
        !v[k],
    ensures
        forall|j: int|
            0 <= j < v.len() ==> #[trigger] feed_verdicts(LoopStage::Filtering(i as usize), len, v)[j]
                != LoopAction::Dispatch,
        feed_verdicts(LoopStage::Filtering(i as usize), len, v).len() == v.len(),
    decreases v.len(),
{
    let all = feed_verdicts(LoopStage::Filtering(i as usize), len, v);
    let rest_v = v.drop_first();
    if !v[0] {
        lemma_receiving_never_dispatches(len, rest_v);
        let rest = feed_verdicts(LoopStage::Receiving, len, rest_v);
        assert(all == seq![LoopAction::Receive] + rest);
        assert forall|j: int| 0 <= j < v.len() implies #[trigger] all[j] != LoopAction::Dispatch by {
            if j > 0 {
                assert(all[j] == rest[j - 1]);
            }
        }
    } else {
        assert(k > 0);
        assert(rest_v[k - 1] == v[k]);
        lemma_rejected_from(len, i + 1, rest_v, k - 1);
        let rest = feed_verdicts(LoopStage::Filtering((i + 1) as usize), len, rest_v);
        assert(all == seq![LoopAction::Evaluate((i + 1) as usize)] + rest);
        assert forall|j: int| 0 <= j < v.len() implies #[trigger] all[j] != LoopAction::Dispatch by {
            if j > 0 {
                assert(all[j] == rest[j - 1]);
            }
        }
    }
}

/// A matcher that a filter rejects is never dispatched: once the run loop
/// has received it, whatever verdicts follow, none of the loop's answers is
/// a dispatch, provided some filter of the chain says no.
pub proof fn law_rejected_never_dispatched(len: nat, v: Seq<bool>, k: int)
    requires
        len <= usize::MAX,
        0 <= k < v.len(),
        k < len,
        !v[k],
    ensures
        ({
            let (stage, first) = loop_step(LoopStage::Receiving, len, BusEvent::Received);
            &&& first != LoopAction::Dispatch
            &&& forall|j: int|
                0 <= j < v.len() ==> #[trigger] feed_verdicts(stage, len, v)[j]
                    != LoopAction::Dispatch
        }),
{
    lemma_rejected_from(len, 0, v, k);
}

proof fn lemma_passed_from(len: nat, i: nat, v: Seq<bool>)
    requires
        len <= usize::MAX,
        i < len,
        i + v.len() == len,
        forall|j: int| 0 <= j < v.len() ==> v[j],
    ensures
        feed_verdicts(LoopStage::Filtering(i as usize), len, v).len() == v.len(),
        forall|j: int|
            0 <= j < v.len() - 1 ==> #[trigger] feed_verdicts(LoopStage::Filtering(i as usize), len, v)[j]
                == LoopAction::Evaluate((i + j + 1) as usize),
        feed_verdicts(LoopStage::Filtering(i as usize), len, v)[v.len() - 1] == LoopAction::Dispatch,
    decreases v.len(),
{
    let all = feed_verdicts(LoopStage::Filtering(i as usize), len, v);
    let rest_v = v.drop_first();
    assert(v[0]);
    if i + 1 < len {
        assert forall|j: int| 0 <= j < rest_v.len() implies rest_v[j] by {
            assert(rest_v[j] == v[j + 1]);
        }
        lemma_passed_from(len, i + 1, rest_v);
        let rest = feed_verdicts(LoopStage::Filtering((i + 1) as usize), len, rest_v);
        assert(all == seq![LoopAction::Evaluate((i + 1) as usize)] + rest);
        assert forall|j: int| 0 <= j < v.len() - 1 implies #[trigger] all[j]
            == LoopAction::Evaluate((i + j + 1) as usize) by {
            if j > 0 {
                assert(all[j] == rest[j - 1]);
            }
        }
        assert(all[v.len() - 1] == rest[rest_v.len() - 1]);
    } else {
        assert(rest_v.len() == 0);
        assert(all == seq![LoopAction::Dispatch] + feed_verdicts(LoopStage::Receiving, len, rest_v));
    }
}

/// A matcher that every filter passes is dispatched exactly once: the loop
/// asks the filters in chain order, one after another, and answers the
/// last verdict with a dispatch.
pub proof fn law_admitted_dispatched_once(len: nat, v: Seq<bool>)
    requires
        0 < len <= usize::MAX,
        v.len() == len,
        forall|j: int| 0 <= j < v.len() ==> v[j],
    ensures
        ({
            let (stage, first) = loop_step(LoopStage::Receiving, len, BusEvent::Received);
            let rest = feed_verdicts(stage, len, v);
            &&& first == LoopAction::Evaluate(0)
            &&& rest.len() == len
            &&& forall|j: int| 0 <= j < len - 1 ==> #[trigger] rest[j] == LoopAction::Evaluate((j + 1) as usize)
            &&& rest[len - 1] == LoopAction::Dispatch
        }),
{
    lemma_passed_from(len, 0, v);
}

/// With no filter at all, a received matcher is dispatched at once.
pub proof fn law_empty_chain_dispatches()
    ensures
        loop_step(LoopStage::Receiving, 0, BusEvent::Received) == (
            LoopStage::Receiving,
            LoopAction::Dispatch,
        ),
{
}

} // verus!
