//! The ordered message channel feeding the dispatch loop.
//!
//! Messages are accepted in order and delivered in the same order to the
//! single consumer. Once the receiving side is gone the channel is closed:
//! every later send fails with [`ChannelClosed`] and nothing is delivered any
//! more. Callers must treat that failure as fatal for the handle, not retry.

use vstd::prelude::*;

use crate::message::RenderingUserEvent;

verus! {

/// The error returned when the channel's receiving end is gone.
#[derive(Clone, Copy, PartialEq, Eq, Structural, Debug)]
pub struct ChannelClosed;

/// An ordered queue of pending messages with a closed flag.
///
/// Well-formed by construction: any queue contents and either flag value are
/// meaningful states, so the type needs no separate invariant.
pub struct MessageChannel<B, Q> {
    /// Messages accepted but not yet delivered, oldest first.
    pub queue: Vec<RenderingUserEvent<B, Q>>,
    /// Whether the receiving end has been dropped.
    pub closed: bool,
}

impl<B, Q> MessageChannel<B, Q> {
    /// Creates an open channel with no pending messages.
    pub fn new() -> (r: MessageChannel<B, Q>)
        ensures
            r.queue@ == Seq::<RenderingUserEvent<B, Q>>::empty(),
            !r.closed,
    {
        MessageChannel { queue: Vec::new(), closed: false }
    }

    /// Accepts `m` for delivery, in order, unless the channel is closed.
    ///
    /// Fails with `ChannelClosed` exactly when the receiving end is gone, and
    /// then changes nothing.
    pub fn send(&mut self, m: RenderingUserEvent<B, Q>) -> (r: Result<(), ChannelClosed>)
        ensures
            match r {
                Ok(()) => !old(self).closed
                    && final(self).queue@ == old(self).queue@.push(m)
                    && !final(self).closed,
                Err(ChannelClosed) => old(self).closed && *final(self) == *old(self),
            },
    {
        if self.closed {
            Err(ChannelClosed)
        } else {
            self.queue.push(m);
            Ok(())
        }
    }

    /// Delivers the oldest pending message, or `None` when nothing is pending
    /// or the channel is closed.
    pub fn recv(&mut self) -> (r: Option<RenderingUserEvent<B, Q>>)
        ensures
            match r {
                Some(m) => !old(self).closed
                    && old(self).queue@.len() > 0
                    && m == old(self).queue@[0]
                    && final(self).queue@ == old(self).queue@.drop_first()
                    && final(self).closed == old(self).closed,
                None => (old(self).closed || old(self).queue@.len() == 0)
                    && *final(self) == *old(self),
            },
    {
        if self.closed || self.queue.len() == 0 {
            None
        } else {
            let m = self.queue.remove(0);
            proof {
                assert(self.queue@ =~= old(self).queue@.drop_first());
            }
            Some(m)
        }
    }

    /// Drops the receiving end: pending messages are discarded and every
    /// later send fails.
    pub fn close(&mut self)
        ensures
            final(self).closed,
            final(self).queue@ == Seq::<RenderingUserEvent<B, Q>>::empty(),
    {
        self.closed = true;
        self.queue.clear();
    }

    /// Whether the receiving end is gone.
    pub fn is_closed(&self) -> (r: bool)
        ensures
            r == self.closed,
    {
        self.closed
    }

    /// The number of messages accepted but not yet delivered.
    pub fn pending(&self) -> (r: usize)
        ensures
            r == self.queue@.len(),
    {
        self.queue.len()
    }
}

} // verus!
