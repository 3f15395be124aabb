//! The dispatch core: the loop-thread component that consumes messages.
//!
//! The core owns the handler registry for its whole lifetime and never
//! exposes it by reference. Each received message is processed to completion:
//! a creation message has its one-shot builder invoked with loop-thread
//! context and the result registered (overwriting a same-identifier entry);
//! a deletion message removes an entry, absence being a no-op; every other
//! message is broadcast to each registered handler exactly once.

use vstd::prelude::*;

use crate::channel::MessageChannel;
use crate::handler::{WindowBuilder, WindowHandler};
use crate::message::{BroadcastEvent, RenderingUserEvent};
use crate::proxy::CustomEventLoopProxy;
use crate::registry::HandlerRegistry;

verus! {

/// The set of registered identifiers left after consuming one message:
/// creation registers its identifier, deletion removes it, broadcasts leave
/// the registry's keys alone.
pub open spec fn dom_step<B, Q>(dom: Set<usize>, msg: RenderingUserEvent<B, Q>) -> Set<usize> {
    match msg {
        RenderingUserEvent::InternalCreateWindow(id, _) => dom.insert(id),
        RenderingUserEvent::InternalDeleteWindow(id) => dom.remove(id),
        RenderingUserEvent::InternalUpdateProps(_) => dom,
        RenderingUserEvent::Other(_) => dom,
    }
}

/// The set of registered identifiers left after consuming a message
/// sequence, oldest first.
pub open spec fn dom_after<B, Q>(
    dom: Set<usize>,
    msgs: Seq<RenderingUserEvent<B, Q>>,
) -> Set<usize>
    decreases msgs.len(),
{
    if msgs.len() == 0 {
        dom
    } else {
        dom_after(dom_step(dom, msgs[0]), msgs.drop_first())
    }
}

/// Whether a message is broadcast to handlers. Only a broadcast runs handler
/// code, so only a broadcast can request cooperative termination.
pub open spec fn is_broadcast<B, Q>(msg: RenderingUserEvent<B, Q>) -> bool {
    msg matches RenderingUserEvent::InternalUpdateProps(_) || msg matches RenderingUserEvent::Other(
        _,
    )
}

/// Whether a message sequence holds no broadcast at all (only registry
/// mutations).
pub open spec fn no_broadcast_pending<B, Q>(msgs: Seq<RenderingUserEvent<B, Q>>) -> bool {
    forall|i: int| 0 <= i < msgs.len() ==> !is_broadcast(#[trigger] msgs[i])
}

/// The dispatch core, owner of the handler registry.
pub struct Rendering<H> {
    /// The registered windows' handlers.
    pub registry: HandlerRegistry<H>,
}

impl<H> View for Rendering<H> {
    type V = Map<usize, H>;

    open spec fn view(&self) -> Map<usize, H> {
        self.registry@
    }
}

impl<H> Rendering<H> {
    /// Well-formedness: the registry's keys are unique.
    pub open spec fn wf(&self) -> bool {
        self.registry.wf()
    }

    /// Creates a dispatch core with an empty registry.
    pub fn new() -> (r: Rendering<H>)
        ensures
            r.wf(),
            r@ == Map::<usize, H>::empty(),
    {
        Rendering { registry: HandlerRegistry::new() }
    }

    /// Hands out a fresh proxy. Each proxy counts identifiers for itself,
    /// starting at zero, as the loop's callers expect; a caller that needs
    /// several posting handles must share one proxy's counter.
    pub fn get_proxy(&self) -> (r: CustomEventLoopProxy)
        ensures
            r.wf(),
            r.next_id == 0,
            r.issued@ == Seq::<usize>::empty(),
    {
        CustomEventLoopProxy::new()
    }

    /// Consumes one message.
    ///
    /// Creation invokes the builder once (the message owns it and this call
    /// consumes it) and registers the result under the message's identifier,
    /// overwriting silently. Deletion removes the identifier, a no-op when
    /// absent. A parameter update or caller payload is broadcast: every
    /// registered handler receives it exactly once, and with zero handlers
    /// nothing happens and nothing fails.
    pub fn process_event<Ctx, Q, B>(
        &mut self,
        msg: RenderingUserEvent<B, Q>,
        ctx: &mut Ctx,
        stop: &mut bool,
    ) where
        H: WindowHandler<Ctx, Q>,
        B: WindowBuilder<Ctx, H>,
        requires
            old(self).wf(),
        ensures
            final(self).wf(),
            (msg matches RenderingUserEvent::InternalCreateWindow(id, b)
                ==> final(self)@ == old(self)@.insert(id, b.built(*old(ctx)))
                    && *final(stop) == *old(stop)),
            (msg matches RenderingUserEvent::InternalDeleteWindow(id)
                ==> final(self)@ == old(self)@.remove(id)
                    && *final(ctx) == *old(ctx)
                    && *final(stop) == *old(stop)),
            (msg matches RenderingUserEvent::InternalUpdateProps(v) ==> {
                &&& final(self)@.dom() == old(self)@.dom()
                &&& forall|id: usize| old(self)@.dom().contains(id)
                    ==> (#[trigger] final(self)@[id]).received()
                        == old(self)@[id].received().push(BroadcastEvent::Props(v))
            }),
            (msg matches RenderingUserEvent::Other(q) ==> {
                &&& final(self)@.dom() == old(self)@.dom()
                &&& forall|id: usize| old(self)@.dom().contains(id)
                    ==> (#[trigger] final(self)@[id]).received()
                        == old(self)@[id].received().push(BroadcastEvent::Other(q))
            }),
    {
        match msg {
            RenderingUserEvent::InternalCreateWindow(id, builder) => {
                let h = builder.build(ctx);
                self.registry.insert(id, h);
            }
            RenderingUserEvent::InternalDeleteWindow(id) => {
                self.registry.remove(id);
            }
            RenderingUserEvent::InternalUpdateProps(v) => {
                let ev = BroadcastEvent::Props(v);
                self.registry.broadcast(&ev, ctx, stop);
            }
            RenderingUserEvent::Other(q) => {
                let ev = BroadcastEvent::Other(q);
                self.registry.broadcast(&ev, ctx, stop);
            }
        }
    }

    /// Drains the channel, consuming each pending message in delivery order,
    /// until nothing is deliverable or a handler requests termination through
    /// `stop`. One call is one turn of the platform's cooperative pump.
    /// Only a handler can request termination, so when no pending message is
    /// a broadcast the flag is left exactly as it was — with the clauses
    /// below, such a turn is guaranteed to drain the queue and leave the
    /// registered key set as the pending messages dictate.
    pub fn run<Ctx, Q, B>(
        &mut self,
        chan: &mut MessageChannel<B, Q>,
        ctx: &mut Ctx,
        stop: &mut bool,
    ) where
        H: WindowHandler<Ctx, Q>,
        B: WindowBuilder<Ctx, H>,
        requires
            old(self).wf(),
        ensures
            final(self).wf(),
            final(chan).closed == old(chan).closed,
            !*final(stop) ==> final(chan).closed || final(chan).queue@.len() == 0,
            !*final(stop) && !final(chan).closed ==> final(self)@.dom() == dom_after(
                old(self)@.dom(),
                old(chan).queue@,
            ),
            !*old(stop) && !old(chan).closed && no_broadcast_pending(old(chan).queue@)
                ==> *final(stop) == *old(stop),
    {
        while !*stop
            invariant
                self.wf(),
                chan.closed == old(chan).closed,
                !*stop ==> dom_after(self@.dom(), chan.queue@) == dom_after(
                    old(self)@.dom(),
                    old(chan).queue@,
                ),
                (!*old(stop) && !old(chan).closed && no_broadcast_pending(old(chan).queue@))
                    ==> (!*stop && no_broadcast_pending(chan.queue@)),
            decreases chan.queue@.len(),
        {
            let ghost pre_dom = self@.dom();
            let ghost pre_queue = chan.queue@;
            match chan.recv() {
                Some(m) => {
                    let ghost gm = m;
                    self.process_event(m, ctx, stop);
                    proof {
                        match gm {
                            RenderingUserEvent::InternalCreateWindow(id, _) => {
                                assert(self@.dom() =~= pre_dom.insert(id));
                            }
                            RenderingUserEvent::InternalDeleteWindow(id) => {
                                assert(self@.dom() =~= pre_dom.remove(id));
                            }
                            RenderingUserEvent::InternalUpdateProps(_) => {}
                            RenderingUserEvent::Other(_) => {}
                        }
                        assert(self@.dom() == dom_step(pre_dom, gm));
                        assert(dom_after(pre_dom, pre_queue) == dom_after(
                            dom_step(pre_dom, pre_queue[0]),
                            pre_queue.drop_first(),
                        ));
                        if no_broadcast_pending(pre_queue) {
                            assert forall|i: int| 0 <= i < pre_queue.drop_first().len()
                                implies !is_broadcast(#[trigger] pre_queue.drop_first()[i]) by {
                                assert(pre_queue.drop_first()[i] == pre_queue[i + 1]);
                            }
                        }
                    }
                }
                None => {
                    return;
                }
            }
        }
    }
}

} // verus!
