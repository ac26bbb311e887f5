//! A table of one kind of component, keyed by the actors' identifiers.

use vstd::prelude::*;
use std::collections::HashMap;
use vstd::std_specs::iter::IteratorSpec;
use crate::battle::Id;

verus! {

broadcast use vstd::std_specs::hash::group_hash_axioms;

/// The components of one kind: at most one for each actor.
#[derive(Clone, Debug, PartialEq, Eq)]
pub struct Table<V> {
    data: HashMap<i32, V>,
}

impl<V> View for Table<V> {
    type V = Map<Id, V>;

    closed spec fn view(&self) -> Map<Id, V> {
        Map::new(|id: Id| self.data@.contains_key(id.0), |id: Id| self.data@[id.0])
    }
}

impl<V> Table<V> {
    /// A table without entries.
    pub fn new() -> (table: Self)
        ensures
            table@ == Map::<Id, V>::empty(),
    {
        let table = Table { data: HashMap::new() };
        assert(table@ =~= Map::<Id, V>::empty());
        table
    }

    /// Gives `id` the component `value`, in place of the one it had.
    pub fn insert(&mut self, id: Id, value: V)
        ensures
            final(self)@ == old(self)@.insert(id, value),
    {
        self.data.insert(id.0, value);
        assert(self@ =~= old(self)@.insert(id, value));
    }

    /// Takes the component of `id` away, if it has one.
    pub fn remove(&mut self, id: Id)
        ensures
            final(self)@ == old(self)@.remove(id),
    {
        self.data.remove(&id.0);
        assert(self@ =~= old(self)@.remove(id));
    }

    /// The component of `id`, if it has one.
    pub fn get_opt(&self, id: Id) -> (found: Option<&V>)
        ensures
            match found {
                Some(value) => self@.contains_key(id) && *value == self@[id],
                None => !self@.contains_key(id),
            },
    {
        self.data.get(&id.0)
    }

    /// The actors that have a component here, each once, in no particular
    /// order.
    pub fn ids(&self) -> (ids: Vec<Id>)
        ensures
            ids@.no_duplicates(),
            forall|id: Id| ids@.contains(id) <==> self@.contains_key(id),
    {
        let mut ids: Vec<Id> = Vec::new();
        let ghost keys = self.data.keys().remaining();
        for key in it: self.data.keys()
            invariant
                it.seq() == keys,
                ids@.len() == it.index(),
                forall|i: int| 0 <= i < ids@.len() ==> ids@[i].0 == *keys[i],
        {
            ids.push(Id(*key));
        }
        proof {
            assert forall|id: Id| ids@.contains(id) <==> self@.contains_key(id) by {
                if ids@.contains(id) {
                    let i = choose|i: int| 0 <= i < ids@.len() && ids@[i] == id;
                    assert(keys.unref()[i] == id.0);
                }
                if self@.contains_key(id) {
                    assert(keys.unref().to_set().contains(id.0));
                    let i = choose|i: int| 0 <= i < keys.len() && keys.unref()[i] == id.0;
                    assert(ids@[i] == id);
                }
            }
            assert forall|i: int, j: int| 0 <= i < j < ids@.len() implies ids@[i] != ids@[j] by {
                assert(keys[i] != keys[j]);
            }
        }
        ids
    }
}

} // verus!
