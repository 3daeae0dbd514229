//! Accessor into the values of a `HashMap`, by key.

use crate::compose::{composed, Composed};
use crate::path::{Path, Selector};
use core::marker::PhantomData;
use std::collections::hash_map::Entry;
use std::collections::HashMap;
use std::hash::Hash;
use vstd::prelude::*;
use vstd::std_specs::hash::obeys_key_model;

verus! {

broadcast use vstd::std_specs::hash::group_hash_axioms;

/// A value that lives in a mapping keyed by a stable identity.
pub trait MapItem {
    /// The identity under which a value is stored.
    type Id: Eq + PartialEq + Hash + Copy;

    /// Identities hash and compare as keys of a hash table must.
    proof fn id_is_a_key()
        ensures
            obeys_key_model::<Self::Id>(),
    ;
}

/// The step from a `HashMap` to the value stored under a fixed key.
pub struct MapLookup<Item: MapItem> {
    pub id: Item::Id,
}

impl<Item: MapItem> Clone for MapLookup<Item> {
    fn clone(&self) -> (copy: Self)
        ensures
            copy == *self,
    {
        *self
    }
}

impl<Item: MapItem> Copy for MapLookup<Item> {

}

impl<Item: MapItem> Selector<HashMap<Item::Id, Item>, Item, false> for MapLookup<Item> {
    open spec fn resolve(&self, state: HashMap<Item::Id, Item>) -> Option<Item> {
        if state@.contains_key(self.id) {
            Some(state@[self.id])
        } else {
            None
        }
    }

    fn select<'a>(&'a self, state: &'a HashMap<Item::Id, Item>) -> (found: Option<&'a Item>) {
        self.follow(state)
    }
}

impl<Item: MapItem> Path<HashMap<Item::Id, Item>, Item, false> for MapLookup<Item> {
    open spec fn replaces(
        &self,
        before: HashMap<Item::Id, Item>,
        after: HashMap<Item::Id, Item>,
        target: Item,
    ) -> bool {
        before@.contains_key(self.id) && after@ == before@.insert(self.id, target)
    }

    fn follow<'a>(&self, state: &'a HashMap<Item::Id, Item>) -> (found: Option<&'a Item>) {
        proof {
            Item::id_is_a_key();
        }
        state.get(&self.id)
    }

    fn follow_mut<'a>(&self, state: &'a mut HashMap<Item::Id, Item>) -> (found: Option<
        &'a mut Item,
    >) {
        proof {
            Item::id_is_a_key();
        }
        if !state.contains_key(&self.id) {
            return None;
        }
        match state.entry(self.id) {
            Entry::Occupied(entry) => Some(entry.into_mut()),
            Entry::Vacant(_) => None,
        }
    }
}

/// Key lookup as a method on every path to a `HashMap` of [`MapItem`]s.
pub trait MapLookupExt<State, T, Item: MapItem + 'static, const SAFE: bool>: Path<
    State,
    HashMap<Item::Id, Item>,
    SAFE,
> {
    /// This path, narrowed to the value stored under `id`. The result may
    /// fail: the key may be absent.
    fn lookup(self, id: Item::Id) -> (path: Composed<
        State,
        HashMap<Item::Id, Item>,
        Item,
        Self,
        MapLookup<Item>,
        SAFE,
        false,
    >)
        ensures
            path == composed::<
                State,
                HashMap<Item::Id, Item>,
                Item,
                Self,
                MapLookup<Item>,
                SAFE,
                false,
            >(self, MapLookup { id }),
    {
        Composed { first: self, second: MapLookup { id }, marker: PhantomData }
    }
}

impl<
    State,
    T: Path<State, HashMap<Item::Id, Item>, SAFE>,
    Item: MapItem + 'static,
    const SAFE: bool,
> MapLookupExt<State, T, Item, SAFE> for T {

}

} // verus!
