//! Request ids and the completion callbacks waiting for them.
//!
//! Every asynchronous request sent to the native SDK carries a request id; a
//! completion callback registered under that id is handed back exactly once,
//! when the native SDK reports the request finished.
use vstd::prelude::*;

use std::collections::HashMap;

verus! {

broadcast use vstd::std_specs::hash::group_hash_axioms;

/// The id that follows `id`: ids are counted by a 64-bit counter that wraps.
pub open spec fn next_id(id: u64) -> u64 {
    if id == u64::MAX {
        0
    } else {
        (id + 1) as u64
    }
}

/// Callbacks waiting for the completion of a request, by request id.
pub struct Completions<C> {
    pending: HashMap<u64, C>,
}

impl<C> View for Completions<C> {
    type V = Map<u64, C>;

    closed spec fn view(&self) -> Map<u64, C> {
        self.pending@
    }
}

impl<C> Completions<C> {
    /// No callback is waiting.
    pub fn new() -> (r: Completions<C>)
        ensures
            r@ == Map::<u64, C>::empty(),
    {
        Completions { pending: HashMap::new() }
    }

    /// Registers `completion` under `id`; a callback already registered
    /// under `id` is dropped.
    pub fn insert(&mut self, id: u64, completion: C)
        ensures
            final(self)@ == old(self)@.insert(id, completion),
    {
        self.pending.insert(id, completion);
    }

    /// Takes the callback registered under `id`, if any.
    pub fn remove(&mut self, id: u64) -> (r: Option<C>)
        ensures
            final(self)@ == old(self)@.remove(id),
            r == old(self)@.get(id),
    {
        let r = self.pending.remove(&id);
        proof {
            if r is None {
                assert(!old(self)@.contains_key(id));
            }
        }
        r
    }

    /// Returns the callback registered under `id`, if any, and keeps it.
    pub fn get(&self, id: u64) -> (r: Option<&C>)
        ensures
            match r {
                Some(c) => self@.get(id) == Some(*c),
                None => self@.get(id) is None,
            },
    {
        self.pending.get(&id)
    }

    /// The number of callbacks waiting.
    pub fn len(&self) -> (r: usize)
        ensures
            r == self@.len(),
    {
        proof {
            vstd::std_specs::hash::axiom_spec_hash_map_len(&self.pending);
        }
        self.pending.len()
    }
}

/// A request id counter with the completion callbacks registered under the
/// ids it handed out, as kept by each virtual audio device.
pub struct CompletionRegistry<C> {
    request_id: u64,
    completions: Completions<C>,
}

impl<C> CompletionRegistry<C> {
    /// The id that the next request will get.
    pub closed spec fn next_request_id_spec(&self) -> u64 {
        self.request_id
    }

    /// The callbacks waiting, by request id.
    pub closed spec fn pending(&self) -> Map<u64, C> {
        self.completions@
    }

    /// Every waiting callback was registered under an id handed out before
    /// the next one.
    pub open spec fn ids_below_next(&self) -> bool {
        forall|id: u64| #[trigger] self.pending().contains_key(id) ==> id < self.next_request_id_spec()
    }

    /// An empty registry whose first request id is 0.
    pub fn new() -> (r: CompletionRegistry<C>)
        ensures
            r.next_request_id_spec() == 0,
            r.pending() == Map::<u64, C>::empty(),
    {
        CompletionRegistry { request_id: 0, completions: Completions::new() }
    }

    /// Hands out the next request id and, when a completion callback is
    /// given, registers it under that id.
    pub fn maybe_register_completion(&mut self, completion: Option<C>) -> (id: u64)
        ensures
            id == old(self).next_request_id_spec(),
            final(self).next_request_id_spec() == next_id(id),
            final(self).pending() == match completion {
                Some(c) => old(self).pending().insert(id, c),
                None => old(self).pending(),
            },
    {
        let id = self.request_id;
        self.request_id = self.request_id.wrapping_add(1);
        if let Some(completion) = completion {
            self.completions.insert(id, completion);
        }
        id
    }

    /// Takes the callback registered under `id`, if any: called when the
    /// native SDK reports that request `id` finished.
    pub fn remove_completion(&mut self, id: u64) -> (r: Option<C>)
        ensures
            r == old(self).pending().get(id),
            final(self).pending() == old(self).pending().remove(id),
            final(self).next_request_id_spec() == old(self).next_request_id_spec(),
    {
        self.completions.remove(id)
    }
}

/// While the id counter has not wrapped, registering a callback keeps every
/// waiting callback under an id below the next one, and the id handed out is
/// not one that a waiting callback holds.
pub proof fn lemma_registered_ids_are_fresh<C>(
    before: CompletionRegistry<C>,
    after: CompletionRegistry<C>,
    completion: Option<C>,
    id: u64,
)
    requires
        before.ids_below_next(),
        before.next_request_id_spec() < u64::MAX,
        id == before.next_request_id_spec(),
        after.next_request_id_spec() == next_id(id),
        after.pending() == match completion {
            Some(c) => before.pending().insert(id, c),
            None => before.pending(),
        },
    ensures
        !before.pending().contains_key(id),
        after.ids_below_next(),
        id < after.next_request_id_spec(),
{
}

/// A callback registered under a fresh id is handed back by the first
/// removal of that id, and a second removal of the same id finds nothing.
pub proof fn lemma_completion_handed_back_once<C>(pending: Map<u64, C>, id: u64, completion: C)
    requires
        !pending.contains_key(id),
    ensures
        pending.insert(id, completion).get(id) == Some(completion),
        pending.insert(id, completion).remove(id) == pending,
        pending.insert(id, completion).remove(id).get(id) is None,
{
    assert(pending.insert(id, completion).remove(id) =~= pending);
}

} // verus!
