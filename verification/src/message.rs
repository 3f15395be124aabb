//! Messages accepted by the dispatch loop.
//!
//! A message is a tagged variant: a deferred window creation carrying a
//! one-shot builder, a window deletion, a shared-parameter update, or a
//! caller-defined payload. The two registry-mutating variants own values that
//! must not be duplicated (a builder is consumed exactly once), so the type
//! deliberately has no `Clone` impl; [`RenderingUserEvent::try_duplicate`]
//! is the total, non-panicking form of duplication.

use vstd::prelude::*;

verus! {

/// A message posted into the dispatch loop.
///
/// `B` is the one-shot window builder type, `Q` the caller-defined payload.
pub enum RenderingUserEvent<B, Q> {
    /// Deferred creation of a window under a caller-assigned identifier.
    InternalCreateWindow(usize, B),
    /// Removal of the handler registered under the identifier (no-op if absent).
    InternalDeleteWindow(usize),
    /// A shared rendering-parameter update, broadcast to every handler.
    InternalUpdateProps(u8),
    /// A caller-defined payload, broadcast exactly like a parameter update.
    Other(Q),
}

impl<B, Q: Copy> RenderingUserEvent<B, Q> {
    /// Duplicates a message if and only if it is one of the broadcastable
    /// variants; creation and deletion messages are not duplicable, since a
    /// builder may be consumed at most once.
    pub fn try_duplicate(&self) -> (r: Option<RenderingUserEvent<B, Q>>)
        ensures
            match r {
                Some(m) => m == *self
                    && (*self matches RenderingUserEvent::InternalUpdateProps(_)
                        || *self matches RenderingUserEvent::Other(_)),
                None => *self matches RenderingUserEvent::InternalCreateWindow(_, _)
                    || *self matches RenderingUserEvent::InternalDeleteWindow(_),
            },
    {
        match self {
            RenderingUserEvent::InternalCreateWindow(_, _) => None,
            RenderingUserEvent::InternalDeleteWindow(_) => None,
            RenderingUserEvent::InternalUpdateProps(v) => {
                Some(RenderingUserEvent::InternalUpdateProps(*v))
            }
            RenderingUserEvent::Other(q) => Some(RenderingUserEvent::Other(*q)),
        }
    }
}

/// The portion of a message that reaches handlers during a broadcast.
pub enum BroadcastEvent<Q> {
    /// A shared rendering-parameter update.
    Props(u8),
    /// A caller-defined payload.
    Other(Q),
}

} // verus!
