//! The handle registry: which open handles are served from memory.
//!
//! A handle that is in the registry has all its reads and seeks answered
//! from the buffer stored with it; a handle that is absent belongs to the
//! archive alone.

use crate::buffer::{BufferState, VirtualBuffer};
use std::collections::hash_map::Entry;
use std::collections::HashMap;
use vstd::prelude::*;
use vstd::std_specs::hash::*;

verus! {

broadcast use vstd::std_specs::hash::group_hash_axioms;

/// The identity of one open asset. It is a key and nothing more: the
/// registry never looks behind it.
pub type HandleId = u64;

/// The virtual buffers of all handles that are currently overlaid.
pub struct Registry {
    buffers: HashMap<u64, VirtualBuffer>,
}

impl View for Registry {
    type V = Map<HandleId, BufferState>;

    closed spec fn view(&self) -> Map<HandleId, BufferState> {
        Map::new(|id: HandleId| self.buffers@.contains_key(id), |id: HandleId| self.buffers@[id]@)
    }
}

impl Registry {
    /// A registry with no handle in it.
    pub fn new() -> (r: Registry)
        ensures
            r@ == Map::<HandleId, BufferState>::empty(),
    {
        let r = Registry { buffers: HashMap::new() };
        assert(r@ =~= Map::<HandleId, BufferState>::empty());
        r
    }

    /// Stores `buffer` under `id`. A buffer that was stored under `id`
    /// before is dropped.
    pub fn register(&mut self, id: HandleId, buffer: VirtualBuffer)
        ensures
            final(self)@ == old(self)@.insert(id, buffer@),
    {
        let _ = self.buffers.insert(id, buffer);
        assert(self@ =~= old(self)@.insert(id, buffer@));
    }

    /// Tells whether `id` is overlaid.
    pub fn contains(&self, id: HandleId) -> (r: bool)
        ensures
            r == self@.contains_key(id),
    {
        self.buffers.contains_key(&id)
    }

    /// The buffer stored under `id`, if there is one.
    pub fn lookup(&self, id: HandleId) -> (r: Option<&VirtualBuffer>)
        ensures
            match r {
                Some(buffer) => self@.contains_key(id) && buffer@ == self@[id],
                None => !self@.contains_key(id),
            },
    {
        self.buffers.get(&id)
    }

    /// The buffer stored under `id`, if there is one, for change in place:
    /// whatever the caller leaves in it is what the registry then holds
    /// under `id`.
    pub fn lookup_mut(&mut self, id: HandleId) -> (r: Option<&mut VirtualBuffer>)
        ensures
            match r {
                Some(buffer) => {
                    &&& old(self)@.contains_key(id)
                    &&& buffer@ == old(self)@[id]
                    &&& final(self)@ == old(self)@.insert(id, final(buffer)@)
                },
                None => !old(self)@.contains_key(id) && final(self)@ == old(self)@,
            },
    {
        match self.buffers.entry(id) {
            Entry::Occupied(slot) => Some(slot.into_mut()),
            Entry::Vacant(_) => None,
        }
    }

    /// Takes the buffer stored under `id` out of the registry.
    pub fn remove(&mut self, id: HandleId) -> (r: Option<VirtualBuffer>)
        ensures
            final(self)@ == old(self)@.remove(id),
            match r {
                Some(buffer) => old(self)@.contains_key(id) && buffer@ == old(self)@[id],
                None => !old(self)@.contains_key(id),
            },
    {
        let taken = self.buffers.remove(&id);
        assert(self@ =~= old(self)@.remove(id));
        taken
    }
}

} // verus!
