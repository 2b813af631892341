use vstd::prelude::*;
use std::sync::Arc;

use crate::shared::share;

verus! {

/// A handler registration: a reactive role (`H`), run once for each
/// admitted matcher, and an active role (`A`), started once to run on its
/// own. Either may be missing, and neither implies the other.
pub struct Handler<H, A> {
    pub event_handler: Option<H>,
    pub active_handler: Option<A>,
}

/// The reactive roles of the registrations, in order.
pub open spec fn reactive_roles<H, A>(hs: Seq<Handler<H, A>>) -> Seq<H>
    decreases hs.len(),
{
    if hs.len() == 0 {
        Seq::empty()
    } else {
        match hs.last().event_handler {
            Some(h) => reactive_roles(hs.drop_last()).push(h),
            None => reactive_roles(hs.drop_last()),
        }
    }
}

/// The active roles of the registrations, in order.
pub open spec fn active_roles<H, A>(hs: Seq<Handler<H, A>>) -> Seq<A>
    decreases hs.len(),
{
    if hs.len() == 0 {
        Seq::empty()
    } else {
        match hs.last().active_handler {
            Some(a) => active_roles(hs.drop_last()).push(a),
            None => active_roles(hs.drop_last()),
        }
    }
}

/// The reactive handlers. Active roles are handed back to the caller, who
/// starts each one as a task of its own.
pub struct EventHandlerPool<H> {
    event_handlers: Vec<Arc<H>>,
}

impl<H> View for EventHandlerPool<H> {
    type V = Seq<H>;

    closed spec fn view(&self) -> Seq<H> {
        self.event_handlers@.map_values(|h: Arc<H>| *h)
    }
}

impl<H> EventHandlerPool<H> {
    pub fn new() -> (r: Self)
        ensures
            r@ == Seq::<H>::empty(),
    {
        let r = EventHandlerPool { event_handlers: Vec::new() };
        assert(r@ =~= Seq::<H>::empty());
        r
    }

    /// A pool with the reactive roles of `handlers`, in order, and the
    /// active roles to start, in order.
    pub fn build<A>(handlers: Vec<Handler<H, A>>) -> (r: (Self, Vec<A>))
        ensures
            r.0@ == reactive_roles(handlers@),
            r.1@ == active_roles(handlers@),
    {
        let ghost all = handlers@;
        let ghost n = all.len();
        let mut pool = EventHandlerPool::new();
        let mut active: Vec<A> = Vec::new();
        let mut rest = handlers;
        let ghost mut taken: Seq<Handler<H, A>> = Seq::empty();
        while rest.len() > 0
            invariant
                all.len() == n,
                taken.len() + rest@.len() == n,
                taken == all.subrange(0, taken.len() as int),
                rest@ == all.subrange(taken.len() as int, n as int),
                pool@ == reactive_roles(taken),
                active@ == active_roles(taken),
            decreases rest@.len(),
        {
            let h = rest.remove(0);
            proof {
                let k = taken.len() as int;
                assert(h == all[k]);
                let before = taken;
                taken = taken.push(h);
                assert(taken == all.subrange(0, k + 1));
                assert(taken.drop_last() == before);
            }
            let started = pool.add_handler(h);
            if let Some(a) = started {
                active.push(a);
            }
        }
        proof {
            assert(all.subrange(0, n as int) == all);
        }
        (pool, active)
    }

    /// Keeps the reactive role, if any, and hands back the active role, if
    /// any, for the caller to start.
    pub fn add_handler<A>(&mut self, handler: Handler<H, A>) -> (r: Option<A>)
        ensures
            final(self)@ == (match handler.event_handler {
                Some(h) => old(self)@.push(h),
                None => old(self)@,
            }),
            r == handler.active_handler,
    {
        let Handler { event_handler, active_handler } = handler;
        if let Some(h) = event_handler {
            self.event_handlers.push(Arc::new(h));
            assert(self@ =~= old(self)@.push(h));
        }
        active_handler
    }

    pub fn len(&self) -> (r: usize)
        ensures
            r == self@.len(),
    {
        self.event_handlers.len()
    }

    /// The fan-out of one admitted matcher: every reactive handler, once
    /// each, in the order they were registered.
    pub fn handle(&self) -> (r: Vec<Arc<H>>)
        ensures
            r@.len() == self@.len(),
            forall|i: int| 0 <= i < r@.len() ==> *#[trigger] r@[i] == self@[i],
    {
        let n = self.event_handlers.len();
        let mut out: Vec<Arc<H>> = Vec::new();
        let mut i: usize = 0;
        while i < n
            invariant
                n == self.event_handlers@.len(),
                i <= n,
                out@.len() == i,
                forall|j: int| 0 <= j < i ==> #[trigger] out@[j] == self.event_handlers@[j],
            decreases n - i,
        {
            out.push(share(&self.event_handlers[i]));
            i = i + 1;
        }
        out
    }
}

} // verus!
