//! The external proxy: the caller-facing handle onto the running loop.
//!
//! The proxy owns a private monotonically increasing identifier counter (its
//! sole mutable state) and turns the four external operations into messages.
//! Every operation reports [`ChannelClosed`] instead of silently dropping a
//! message, since silent loss would desynchronize caller-held window
//! identifiers from the actual registry state. A counter is per-proxy: with
//! several proxies the caller must keep to one, or identifiers may repeat.

use vstd::prelude::*;

use crate::channel::{ChannelClosed, MessageChannel};
use crate::message::RenderingUserEvent;

verus! {

/// The caller-facing handle used to enqueue messages from outside the loop.
pub struct CustomEventLoopProxy {
    /// The next window identifier to hand out.
    pub next_id: usize,
    /// Every identifier this proxy has returned, oldest first.
    pub issued: Ghost<Seq<usize>>,
}

impl CustomEventLoopProxy {
    /// Well-formedness: issued identifiers are strictly increasing and all
    /// below the counter.
    pub open spec fn wf(&self) -> bool {
        &&& forall|i: int, j: int| 0 <= i < j < self.issued@.len()
            ==> self.issued@[i] < self.issued@[j]
        &&& forall|i: int| 0 <= i < self.issued@.len() ==> self.issued@[i] < self.next_id
    }

    /// Creates a proxy that has issued nothing.
    pub fn new() -> (r: CustomEventLoopProxy)
        ensures
            r.wf(),
            r.next_id == 0,
            r.issued@ == Seq::<usize>::empty(),
    {
        CustomEventLoopProxy { next_id: 0, issued: Ghost(Seq::empty()) }
    }

    /// Allocates the next identifier, enqueues a creation message carrying
    /// `builder`, and returns the identifier immediately — before the window
    /// exists. The identifier is strictly greater than every identifier this
    /// proxy returned before. On a closed channel nothing changes and the
    /// call fails.
    pub fn create_window<B, Q>(
        &mut self,
        chan: &mut MessageChannel<B, Q>,
        builder: B,
    ) -> (r: Result<usize, ChannelClosed>)
        requires
            old(self).wf(),
            old(self).next_id < usize::MAX,
        ensures
            final(self).wf(),
            match r {
                Ok(id) => !old(chan).closed
                    && id == old(self).next_id
                    && final(self).next_id == id + 1
                    && final(self).issued@ == old(self).issued@.push(id)
                    && (forall|i: int| 0 <= i < old(self).issued@.len()
                        ==> old(self).issued@[i] < id)
                    && final(chan).closed == old(chan).closed
                    && final(chan).queue@ == old(chan).queue@.push(
                        RenderingUserEvent::InternalCreateWindow(id, builder),
                    ),
                Err(ChannelClosed) => old(chan).closed
                    && *final(self) == *old(self)
                    && *final(chan) == *old(chan),
            },
    {
        let id = self.next_id;
        match chan.send(RenderingUserEvent::InternalCreateWindow(id, builder)) {
            Ok(()) => {
                self.next_id = id + 1;
                proof {
                    self.issued@ = self.issued@.push(id);
                }
                Ok(id)
            }
            Err(e) => Err(e),
        }
    }

    /// Enqueues a deletion message for `id`; deletion is idempotent at the
    /// registry. On a closed channel nothing changes and the call fails.
    pub fn delete_window<B, Q>(
        &self,
        chan: &mut MessageChannel<B, Q>,
        id: usize,
    ) -> (r: Result<(), ChannelClosed>)
        ensures
            match r {
                Ok(()) => !old(chan).closed
                    && final(chan).closed == old(chan).closed
                    && final(chan).queue@ == old(chan).queue@.push(
                        RenderingUserEvent::InternalDeleteWindow(id),
                    ),
                Err(ChannelClosed) => old(chan).closed && *final(chan) == *old(chan),
            },
    {
        chan.send(RenderingUserEvent::InternalDeleteWindow(id))
    }

    /// Enqueues a shared-parameter update for broadcast to every handler.
    /// On a closed channel nothing changes and the call fails.
    pub fn update_prop<B, Q>(
        &self,
        chan: &mut MessageChannel<B, Q>,
        value: u8,
    ) -> (r: Result<(), ChannelClosed>)
        ensures
            match r {
                Ok(()) => !old(chan).closed
                    && final(chan).closed == old(chan).closed
                    && final(chan).queue@ == old(chan).queue@.push(
                        RenderingUserEvent::InternalUpdateProps(value),
                    ),
                Err(ChannelClosed) => old(chan).closed && *final(chan) == *old(chan),
            },
    {
        chan.send(RenderingUserEvent::InternalUpdateProps(value))
    }

    /// Enqueues a caller-defined payload for broadcast to every handler.
    /// On a closed channel nothing changes and the call fails.
    pub fn send_event<B, Q>(
        &self,
        chan: &mut MessageChannel<B, Q>,
        payload: Q,
    ) -> (r: Result<(), ChannelClosed>)
        ensures
            match r {
                Ok(()) => !old(chan).closed
                    && final(chan).closed == old(chan).closed
                    && final(chan).queue@ == old(chan).queue@.push(
                        RenderingUserEvent::Other(payload),
                    ),
                Err(ChannelClosed) => old(chan).closed && *final(chan) == *old(chan),
            },
    {
        chan.send(RenderingUserEvent::Other(payload))
    }
}

} // verus!
