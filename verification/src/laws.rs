//! Laws of the multiplexer, stated over its mathematical models.
//!
//! The registry's model is the `Map<usize, H>` that its contracts speak of,
//! and the proxy's is its ghost history of issued identifiers; these lemmas
//! state how the dispatch contracts compose across calls.

use vstd::prelude::*;

use crate::proxy::CustomEventLoopProxy;

verus! {

/// Identifiers returned by one proxy are strictly increasing: of any two,
/// the one issued later is the greater.
pub proof fn lemma_issued_strictly_increasing(p: &CustomEventLoopProxy, i: int, j: int)
    requires
        p.wf(),
        0 <= i < j < p.issued@.len(),
    ensures
        p.issued@[i] < p.issued@[j],
{
}

/// Processing a creation message registers exactly one handler under its
/// identifier: the one its builder produced. `Rendering::process_event`
/// ensures the new registry is `reg.insert(id, h)` with `h` the built
/// handler; this law reads off what that mapping holds at `id`.
pub proof fn lemma_create_registers<H>(reg: Map<usize, H>, id: usize, h: H)
    ensures
        reg.insert(id, h).dom().contains(id),
        reg.insert(id, h)[id] == h,
{
}

/// Deleting an identifier that is not registered leaves the registry
/// unchanged, and is not an error. `Rendering::process_event` ensures the
/// registry after a deletion is `reg.remove(id)`; this law says that removal
/// of an absent key is the identity.
pub proof fn lemma_delete_absent_is_noop<H>(reg: Map<usize, H>, id: usize)
    requires
        !reg.dom().contains(id),
    ensures
        reg.remove(id) == reg,
{
    assert(reg.remove(id) =~= reg);
}

/// Last write wins: processing two creation messages under one identifier
/// leaves exactly one entry there, backed by the second message's handler;
/// the first handler is dropped. The two `insert`s are the registries that
/// `Rendering::process_event` ensures for the two messages in turn.
pub proof fn lemma_last_write_wins<H>(reg: Map<usize, H>, id: usize, h1: H, h2: H)
    ensures
        reg.insert(id, h1).insert(id, h2) == reg.insert(id, h2),
        reg.insert(id, h1).insert(id, h2)[id] == h2,
{
    assert(reg.insert(id, h1).insert(id, h2) =~= reg.insert(id, h2));
}

} // verus!
