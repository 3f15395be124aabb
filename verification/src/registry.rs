//! The handler registry: a mapping from window identifier to handler.
//!
//! The registry is owned exclusively by the dispatch core. Keys are unique;
//! insertion overwrites silently (last write wins) and deleting an absent key
//! is a no-op. Its mathematical model is a `Map<usize, H>`, obtained from the
//! backing vector of entries by [`map_of`]; broadcast order over entries is a
//! design freedom that no contract exposes.

use vstd::prelude::*;

use crate::handler::WindowHandler;
use crate::message::BroadcastEvent;

verus! {

/// Whether no window identifier occurs twice in `s`.
pub open spec fn unique_keys<H>(s: Seq<(usize, H)>) -> bool {
    forall|i: int, j: int| 0 <= i < j < s.len() ==> s[i].0 != s[j].0
}

/// The mapping described by an entry sequence; later entries win.
pub open spec fn map_of<H>(s: Seq<(usize, H)>) -> Map<usize, H>
    decreases s.len(),
{
    if s.len() == 0 {
        Map::empty()
    } else {
        map_of(s.drop_last()).insert(s.last().0, s.last().1)
    }
}

/// A key is in the mapping's domain exactly when some entry carries it.
pub proof fn lemma_map_of_dom<H>(s: Seq<(usize, H)>, k: usize)
    ensures
        map_of(s).dom().contains(k) <==> exists|i: int| 0 <= i < s.len() && (#[trigger] s[i]).0 == k,
    decreases s.len(),
{
    if s.len() > 0 {
        lemma_map_of_dom(s.drop_last(), k);
        if s.last().0 == k {
            assert(s[s.len() - 1].0 == k);
        } else if map_of(s).dom().contains(k) {
            let i = choose|i: int| 0 <= i < s.drop_last().len() && (#[trigger] s.drop_last()[i]).0 == k;
            assert(s[i].0 == k);
        } else if exists|i: int| 0 <= i < s.len() && (#[trigger] s[i]).0 == k {
            let i = choose|i: int| 0 <= i < s.len() && (#[trigger] s[i]).0 == k;
            assert(i < s.len() - 1);
            assert(s.drop_last()[i].0 == k);
        }
    }
}

/// With unique keys, the mapping sends each entry's key to that entry's
/// handler.
pub proof fn lemma_map_of_index<H>(s: Seq<(usize, H)>, i: int)
    requires
        unique_keys(s),
        0 <= i < s.len(),
    ensures
        map_of(s).dom().contains(s[i].0),
        map_of(s)[s[i].0] == s[i].1,
    decreases s.len(),
{
    if i == s.len() - 1 {
    } else {
        assert(unique_keys(s.drop_last()));
        assert(s.drop_last()[i] == s[i]);
        lemma_map_of_index(s.drop_last(), i);
        assert(s[i].0 != s.last().0);
    }
}

/// With unique keys, the mapping has exactly one element per entry.
pub proof fn lemma_map_of_len<H>(s: Seq<(usize, H)>)
    requires
        unique_keys(s),
    ensures
        map_of(s).dom().finite(),
        map_of(s).dom().len() == s.len(),
    decreases s.len(),
{
    if s.len() > 0 {
        assert(unique_keys(s.drop_last()));
        lemma_map_of_len(s.drop_last());
        lemma_map_of_dom(s.drop_last(), s.last().0);
        assert(forall|i: int| 0 <= i < s.drop_last().len()
            ==> (#[trigger] s.drop_last()[i]).0 != s.last().0);
        assert(!map_of(s.drop_last()).dom().contains(s.last().0));
    }
}

/// Appending an entry inserts its pair into the mapping.
pub proof fn lemma_map_of_push<H>(s: Seq<(usize, H)>, k: usize, h: H)
    ensures
        map_of(s.push((k, h))) == map_of(s).insert(k, h),
{
    assert(s.push((k, h)).drop_last() =~= s);
    assert(s.push((k, h)).last() == (k, h));
}

/// Removing the entry that carries a key removes that key from the mapping,
/// keeps the remaining keys unique, and leaves no entry with the key behind.
pub proof fn lemma_map_of_remove<H>(s: Seq<(usize, H)>, i: int)
    requires
        unique_keys(s),
        0 <= i < s.len(),
    ensures
        map_of(s.remove(i)) == map_of(s).remove(s[i].0),
        unique_keys(s.remove(i)),
        forall|j: int| 0 <= j < s.remove(i).len() ==> (#[trigger] s.remove(i)[j]).0 != s[i].0,
    decreases s.len(),
{
    let k = s[i].0;
    let t = s.remove(i);
    assert(forall|j: int| 0 <= j < t.len() ==> #[trigger] t[j] == if j < i {
        s[j]
    } else {
        s[j + 1]
    });
    if i == s.len() - 1 {
        assert(t =~= s.drop_last());
        assert(unique_keys(s.drop_last()));
        lemma_map_of_dom(s.drop_last(), k);
        assert(forall|j: int| 0 <= j < s.drop_last().len()
            ==> (#[trigger] s.drop_last()[j]).0 != k);
        assert(!map_of(s.drop_last()).dom().contains(k));
        assert(map_of(s).remove(k) =~= map_of(s.drop_last()));
    } else {
        assert(unique_keys(s.drop_last()));
        assert(s.drop_last()[i] == s[i]);
        lemma_map_of_remove(s.drop_last(), i);
        assert(t.last() == s.last());
        assert(t.drop_last() =~= s.drop_last().remove(i));
        assert(s.last().0 != k);
        assert(map_of(t) == map_of(s.drop_last()).remove(k).insert(s.last().0, s.last().1));
        assert(map_of(s).remove(k) =~= map_of(s.drop_last()).remove(k).insert(
            s.last().0,
            s.last().1,
        ));
    }
}

/// Entry sequences with pointwise-equal keys describe mappings with the same
/// domain.
pub proof fn lemma_same_keys_same_dom<H>(s1: Seq<(usize, H)>, s2: Seq<(usize, H)>)
    ensures
        (s1.len() == s2.len() && (forall|j: int| 0 <= j < s1.len()
            ==> (#[trigger] s1[j]).0 == s2[j].0)) ==> map_of(s1).dom() =~= map_of(s2).dom(),
{
    if s1.len() == s2.len() && (forall|j: int| 0 <= j < s1.len()
        ==> (#[trigger] s1[j]).0 == s2[j].0) {
        assert forall|k: usize| map_of(s1).dom().contains(k) == map_of(
            s2,
        ).dom().contains(k) by {
            lemma_map_of_dom(s1, k);
            lemma_map_of_dom(s2, k);
            if map_of(s1).dom().contains(k) {
                let i = choose|i: int| 0 <= i < s1.len() && (#[trigger] s1[i]).0 == k;
                assert(s2[i].0 == k);
            }
            if map_of(s2).dom().contains(k) {
                let i = choose|i: int| 0 <= i < s2.len() && (#[trigger] s2[i]).0 == k;
                assert(s1[i].0 == k);
            }
        }
    }
}

/// The handler registry: identifier-to-handler entries with unique keys.
pub struct HandlerRegistry<H> {
    /// The registered windows, as (identifier, handler) entries.
    pub entries: Vec<(usize, H)>,
}

impl<H> View for HandlerRegistry<H> {
    type V = Map<usize, H>;

    open spec fn view(&self) -> Map<usize, H> {
        map_of(self.entries@)
    }
}

impl<H> HandlerRegistry<H> {
    /// Well-formedness: no identifier is registered twice.
    pub open spec fn wf(&self) -> bool {
        unique_keys(self.entries@)
    }

    /// Creates an empty registry.
    pub fn new() -> (r: HandlerRegistry<H>)
        ensures
            r.wf(),
            r@ == Map::<usize, H>::empty(),
    {
        HandlerRegistry { entries: Vec::new() }
    }

    /// The position of the entry registered under `id`, if any.
    fn position_of(&self, id: usize) -> (r: Option<usize>)
        ensures
            match r {
                Some(i) => i < self.entries@.len() && self.entries@[i as int].0 == id,
                None => forall|j: int| 0 <= j < self.entries@.len()
                    ==> (#[trigger] self.entries@[j]).0 != id,
            },
    {
        let mut i: usize = 0;
        while i < self.entries.len()
            invariant
                i <= self.entries@.len(),
                forall|j: int| 0 <= j < i ==> (#[trigger] self.entries@[j]).0 != id,
            decreases self.entries@.len() - i,
        {
            if self.entries[i].0 == id {
                return Some(i);
            }
            i = i + 1;
        }
        None
    }

    /// Registers `h` under `id`, overwriting any existing entry for `id`
    /// (last write wins — no conflict is reported).
    pub fn insert(&mut self, id: usize, h: H)
        requires
            old(self).wf(),
        ensures
            final(self).wf(),
            final(self)@ == old(self)@.insert(id, h),
    {
        match self.position_of(id) {
            Some(i) => {
                proof {
                    lemma_map_of_remove(self.entries@, i as int);
                }
                self.entries.remove(i);
                proof {
                    lemma_map_of_push(self.entries@, id, h);
                    assert(old(self)@.remove(id).insert(id, h) =~= old(self)@.insert(id, h));
                }
                self.entries.push((id, h));
            }
            None => {
                proof {
                    lemma_map_of_push(self.entries@, id, h);
                }
                self.entries.push((id, h));
            }
        }
    }

    /// Removes and returns the handler registered under `id`; absence is not
    /// an error and leaves the registry unchanged.
    pub fn remove(&mut self, id: usize) -> (r: Option<H>)
        requires
            old(self).wf(),
        ensures
            final(self).wf(),
            final(self)@ == old(self)@.remove(id),
            match r {
                Some(h) => old(self)@.dom().contains(id) && h == old(self)@[id],
                None => !old(self)@.dom().contains(id) && *final(self) == *old(self),
            },
    {
        proof {
            lemma_map_of_dom(self.entries@, id);
        }
        match self.position_of(id) {
            Some(i) => {
                proof {
                    lemma_map_of_index(self.entries@, i as int);
                    lemma_map_of_remove(self.entries@, i as int);
                }
                let (_, h) = self.entries.remove(i);
                Some(h)
            }
            None => {
                proof {
                    assert(old(self)@.remove(id) =~= old(self)@);
                }
                None
            }
        }
    }

    /// Whether a handler is registered under `id`.
    pub fn contains(&self, id: usize) -> (r: bool)
        ensures
            r == self@.dom().contains(id),
    {
        proof {
            lemma_map_of_dom(self.entries@, id);
        }
        match self.position_of(id) {
            Some(_) => true,
            None => false,
        }
    }

    /// The number of registered windows.
    pub fn len(&self) -> (r: usize)
        requires
            self.wf(),
        ensures
            r as nat == self@.dom().len(),
    {
        proof {
            lemma_map_of_len(self.entries@);
        }
        self.entries.len()
    }

    /// The handler registered under `id`, if any.
    pub fn get(&self, id: usize) -> (r: Option<&H>)
        requires
            self.wf(),
        ensures
            match r {
                Some(h) => self@.dom().contains(id) && *h == self@[id],
                None => !self@.dom().contains(id),
            },
    {
        proof {
            lemma_map_of_dom(self.entries@, id);
        }
        match self.position_of(id) {
            Some(i) => {
                proof {
                    lemma_map_of_index(self.entries@, i as int);
                }
                Some(&self.entries[i].1)
            }
            None => None,
        }
    }

    /// Delivers `ev` to every registered handler exactly once. With zero
    /// registered windows this is a no-op, not an error. The set of
    /// registered identifiers is unchanged; no promise is made about the
    /// order in which handlers run.
    pub fn broadcast<Ctx, Q>(&mut self, ev: &BroadcastEvent<Q>, ctx: &mut Ctx, stop: &mut bool) where
        H: WindowHandler<Ctx, Q>,
        requires
            old(self).wf(),
        ensures
            final(self).wf(),
            final(self)@.dom() == old(self)@.dom(),
            forall|id: usize| old(self)@.dom().contains(id)
                ==> #[trigger] final(self)@[id].received() == old(self)@[id].received().push(*ev),
    {
        let ghost s0 = self.entries@;
        let n = self.entries.len();
        let mut i: usize = 0;
        while i < n
            invariant
                i <= n,
                n == s0.len(),
                self.entries@.len() == s0.len(),
                forall|j: int| 0 <= j < s0.len() ==> (#[trigger] self.entries@[j]).0 == s0[j].0,
                forall|j: int| 0 <= j < i
                    ==> (#[trigger] self.entries@[j]).1.received() == s0[j].1.received().push(*ev),
                forall|j: int| i <= j < s0.len() ==> (#[trigger] self.entries@[j]).1 == s0[j].1,
            decreases n - i,
        {
            let ghost before = self.entries@;
            let (id, mut h) = self.entries.remove(i);
            h.on_event(ev, ctx, stop);
            self.entries.insert(i, (id, h));
            proof {
                assert(self.entries@ =~= before.update(i as int, (id, h)));
            }
            i = i + 1;
        }
        proof {
            assert(unique_keys(self.entries@));
            lemma_same_keys_same_dom(s0, self.entries@);
            assert forall|id: usize| old(self)@.dom().contains(id)
                implies (#[trigger] self@[id]).received() == old(self)@[id].received().push(*ev) by {
                lemma_map_of_dom(s0, id);
                let j = choose|j: int| 0 <= j < s0.len() && (#[trigger] s0[j]).0 == id;
                lemma_map_of_index(s0, j);
                lemma_map_of_index(self.entries@, j);
            }
        }
    }
}

} // verus!
