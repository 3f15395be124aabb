//! Per-window handlers and the deferred window-construction protocol.
//!
//! A handler is an owned, stateful value bound to one window identifier and
//! invoked once per broadcast. A builder is the one-shot value carried by a
//! creation message: the dispatch core consumes it, with loop-thread context,
//! to materialize the handler — by-value consumption is what makes "invoked
//! at most once" a property of the types rather than a runtime check.

use vstd::prelude::*;

use crate::message::BroadcastEvent;

verus! {

/// A per-window update handler.
///
/// Implementors are the windows' own closures (rendering state, cameras,
/// shared parameters); the dispatch core relies only on this contract: each
/// invocation appends exactly the delivered event to the handler's received
/// history. `ctx` is the loop-thread context and `stop` the cooperative
/// termination flag, both of which a handler may mutate freely.
pub trait WindowHandler<Ctx, Q>: Sized {
    /// The events this handler has been invoked with, oldest first.
    spec fn received(&self) -> Seq<BroadcastEvent<Q>>;

    /// Delivers one broadcast event to the handler.
    fn on_event(&mut self, ev: &BroadcastEvent<Q>, ctx: &mut Ctx, stop: &mut bool)
        ensures
            final(self).received() == old(self).received().push(*ev),
    ;
}

/// A one-shot window builder: the deferred-construction contract.
///
/// The builder travels inside a creation message from an arbitrary calling
/// context and is invoked exactly once, by the dispatch core, with the
/// loop-thread context it needs to bind platform resources.
pub trait WindowBuilder<Ctx, H>: Sized {
    /// The handler this builder produces when given the context value.
    spec fn built(self, ctx: Ctx) -> H;

    /// Consumes the builder and produces the window's handler.
    fn build(self, ctx: &mut Ctx) -> (h: H)
        ensures
            h == self.built(*old(ctx)),
    ;
}

/// A handler that records what it receives: the library's own implementor of
/// [`WindowHandler`], used by tests and as a minimal window.
pub struct RecordingHandler<Q> {
    /// How many events have been delivered (saturating at the type's limit).
    pub count: usize,
    /// The payload of the most recent parameter update, if any.
    pub last_props: Option<u8>,
    /// The full received history.
    pub history: Ghost<Seq<BroadcastEvent<Q>>>,
}

impl<Q> RecordingHandler<Q> {
    /// Creates a handler that has received nothing.
    pub fn new() -> (r: RecordingHandler<Q>)
        ensures
            r.history@ == Seq::<BroadcastEvent<Q>>::empty(),
            r.count == 0,
            r.last_props is None,
    {
        RecordingHandler { count: 0, last_props: None, history: Ghost(Seq::empty()) }
    }

    /// How many events have been delivered.
    pub fn times_invoked(&self) -> (r: usize)
        ensures
            r == self.count,
    {
        self.count
    }

    /// The most recent parameter-update payload, if any.
    pub fn last_update(&self) -> (r: Option<u8>)
        ensures
            r == self.last_props,
    {
        self.last_props
    }
}

impl<Ctx, Q> WindowHandler<Ctx, Q> for RecordingHandler<Q> {
    open spec fn received(&self) -> Seq<BroadcastEvent<Q>> {
        self.history@
    }

    fn on_event(&mut self, ev: &BroadcastEvent<Q>, _ctx: &mut Ctx, _stop: &mut bool)
        ensures
            *final(_ctx) == *old(_ctx),
            *final(_stop) == *old(_stop),
            final(self).count == if old(self).count < usize::MAX {
                old(self).count + 1
            } else {
                old(self).count as int
            },
            final(self).last_props == (match *ev {
                BroadcastEvent::Props(v) => Some(v),
                BroadcastEvent::Other(_) => old(self).last_props,
            }),
    {
        if self.count < usize::MAX {
            self.count = self.count + 1;
        }
        match ev {
            BroadcastEvent::Props(v) => {
                self.last_props = Some(*v);
            }
            BroadcastEvent::Other(_) => {}
        }
        proof {
            self.history@ = self.history@.push(*ev);
        }
    }
}

/// A builder that already owns its handler and hands it out unchanged: the
/// library's own implementor of [`WindowBuilder`], for windows that need no
/// loop-thread resources.
pub struct RecordingBuilder<Q> {
    /// The handler to register.
    pub handler: RecordingHandler<Q>,
}

impl<Q> RecordingBuilder<Q> {
    /// Wraps a fresh [`RecordingHandler`].
    pub fn new() -> (r: RecordingBuilder<Q>)
        ensures
            r.handler.history@ == Seq::<BroadcastEvent<Q>>::empty(),
            r.handler.count == 0,
            r.handler.last_props is None,
    {
        RecordingBuilder { handler: RecordingHandler::new() }
    }
}

impl<Ctx, Q> WindowBuilder<Ctx, RecordingHandler<Q>> for RecordingBuilder<Q> {
    open spec fn built(self, ctx: Ctx) -> RecordingHandler<Q> {
        self.handler
    }

    fn build(self, _ctx: &mut Ctx) -> (h: RecordingHandler<Q>) {
        self.handler
    }
}

} // verus!
