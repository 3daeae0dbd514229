//! Accessors into the elements of a `Vec`: by position, and by the stable
//! identity of the element.

use crate::compose::{composed, Composed};
use crate::path::{Path, Selector};
use core::marker::PhantomData;
use std::hash::Hash;
use vstd::prelude::*;
use vstd::std_specs::cmp::PartialEqSpec;

verus! {

/// An element that can be found again by a stable identity.
///
/// An identity must not be given to another logical element for as long as
/// an accessor refers to it.
pub trait VecItem {
    /// The identity of an element.
    type Id: Copy + PartialEq + Eq + Hash;

    /// The identity of this element.
    spec fn id(&self) -> Self::Id;

    /// Comparing two identities with `==` tells whether they are the same.
    proof fn id_equality()
        ensures
            <Self::Id as PartialEqSpec>::obeys_eq_spec(),
            forall|a: Self::Id, b: Self::Id| #[trigger] a.eq_spec(&b) <==> a == b,
    ;

    /// The identity of this element.
    fn get_id(&self) -> (id: Self::Id)
        ensures
            id == self.id(),
    ;
}

/// Whether `at` is the position of the first element of `items` that
/// carries the identity `id`.
pub open spec fn is_first_with_id<Item: VecItem>(items: Seq<Item>, id: Item::Id, at: int) -> bool {
    &&& 0 <= at < items.len()
    &&& items[at].id() == id
    &&& forall|earlier: int| 0 <= earlier < at ==> (#[trigger] items[earlier]).id() != id
}

/// The position of the first element of `items` that carries the identity
/// `id`, if there is one.
pub open spec fn first_with_id<Item: VecItem>(items: Seq<Item>, id: Item::Id) -> Option<int> {
    if exists|at: int| is_first_with_id(items, id, at) {
        Some(choose|at: int| is_first_with_id(items, id, at))
    } else {
        None
    }
}

/// At most one position is the first with a given identity.
pub proof fn lemma_first_with_id_is_unique<Item: VecItem>(items: Seq<Item>, id: Item::Id, at: int)
    requires
        is_first_with_id(items, id, at),
    ensures
        first_with_id(items, id) == Some(at),
{
    let chosen = choose|at: int| is_first_with_id(items, id, at);
    if chosen < at {
        assert(items[chosen].id() != id);
    }
    if at < chosen {
        assert(items[at].id() != id);
    }
}

/// Finds the first element of `items` that carries the identity `id`.
fn find_with_id<Item: VecItem>(items: &Vec<Item>, id: Item::Id) -> (found: Option<usize>)
    ensures
        match found {
            Some(at) => first_with_id(items@, id) == Some(at as int),
            None => first_with_id(items@, id) is None,
        },
{
    proof {
        Item::id_equality();
    }
    let mut at: usize = 0;
    while at < items.len()
        invariant
            at <= items.len(),
            <Item::Id as PartialEqSpec>::obeys_eq_spec(),
            forall|a: Item::Id, b: Item::Id| #[trigger] a.eq_spec(&b) <==> a == b,
            forall|earlier: int| 0 <= earlier < at ==> (#[trigger] items@[earlier]).id() != id,
        decreases items.len() - at,
    {
        if items[at].get_id() == id {
            proof {
                lemma_first_with_id_is_unique(items@, id, at as int);
            }
            return Some(at);
        }
        at += 1;
    }
    None
}

/// The step from a `Vec` to its first element with a given identity.
pub struct VecLookup<Item: VecItem> {
    pub id: Item::Id,
}

impl<Item: VecItem> Clone for VecLookup<Item> {
    fn clone(&self) -> (copy: Self)
        ensures
            copy == *self,
    {
        *self
    }
}

impl<Item: VecItem> Copy for VecLookup<Item> {

}

impl<Item: VecItem> Selector<Vec<Item>, Item, false> for VecLookup<Item> {
    open spec fn resolve(&self, state: Vec<Item>) -> Option<Item> {
        match first_with_id(state@, self.id) {
            Some(at) => Some(state@[at]),
            None => None,
        }
    }

    fn select<'a>(&'a self, state: &'a Vec<Item>) -> (found: Option<&'a Item>) {
        self.follow(state)
    }
}

impl<Item: VecItem> Path<Vec<Item>, Item, false> for VecLookup<Item> {
    open spec fn replaces(&self, before: Vec<Item>, after: Vec<Item>, target: Item) -> bool {
        match first_with_id(before@, self.id) {
            Some(at) => after@ == before@.update(at, target),
            None => false,
        }
    }

    fn follow<'a>(&self, state: &'a Vec<Item>) -> (found: Option<&'a Item>) {
        match find_with_id(state, self.id) {
            Some(at) => Some(&state[at]),
            None => None,
        }
    }

    fn follow_mut<'a>(&self, state: &'a mut Vec<Item>) -> (found: Option<&'a mut Item>) {
        match find_with_id(state, self.id) {
            Some(at) => Some(&mut state[at]),
            None => None,
        }
    }
}

/// Identity lookup as a method on every path to a `Vec` of [`VecItem`]s.
pub trait VecLookupExt<State, T, Item: VecItem + 'static, const SAFE: bool>: Path<
    State,
    Vec<Item>,
    SAFE,
> {
    /// This path, narrowed to the first element that carries `id`. The
    /// result may fail: no element may carry that identity.
    fn lookup(self, id: Item::Id) -> (path: Composed<
        State,
        Vec<Item>,
        Item,
        Self,
        VecLookup<Item>,
        SAFE,
        false,
    >)
        ensures
            path == composed::<State, Vec<Item>, Item, Self, VecLookup<Item>, SAFE, false>(
                self,
                VecLookup { id },
            ),
    {
        Composed { first: self, second: VecLookup { id }, marker: PhantomData }
    }
}

impl<
    State,
    T: Path<State, Vec<Item>, SAFE>,
    Item: VecItem + 'static,
    const SAFE: bool,
> VecLookupExt<State, T, Item, SAFE> for T {

}

/// The step from a `Vec` to the element at a fixed position.
pub struct VecIndex {
    pub index: usize,
}

impl Clone for VecIndex {
    fn clone(&self) -> (copy: Self)
        ensures
            copy == *self,
    {
        *self
    }
}

impl Copy for VecIndex {

}

impl<Item> Selector<Vec<Item>, Item, false> for VecIndex {
    open spec fn resolve(&self, state: Vec<Item>) -> Option<Item> {
        if self.index < state@.len() {
            Some(state@[self.index as int])
        } else {
            None
        }
    }

    fn select<'a>(&'a self, state: &'a Vec<Item>) -> (found: Option<&'a Item>) {
        self.follow(state)
    }
}

impl<Item> Path<Vec<Item>, Item, false> for VecIndex {
    open spec fn replaces(&self, before: Vec<Item>, after: Vec<Item>, target: Item) -> bool {
        self.index < before@.len() && after@ == before@.update(self.index as int, target)
    }

    fn follow<'a>(&self, state: &'a Vec<Item>) -> (found: Option<&'a Item>) {
        if self.index < state.len() {
            Some(&state[self.index])
        } else {
            None
        }
    }

    fn follow_mut<'a>(&self, state: &'a mut Vec<Item>) -> (found: Option<&'a mut Item>) {
        if self.index < state.len() {
            Some(&mut state[self.index])
        } else {
            None
        }
    }
}

/// Positional indexing as a method on every path to a `Vec`.
pub trait VecIndexExt<State, T, Item: 'static, const SAFE: bool>: Path<State, Vec<Item>, SAFE> {
    /// This path, narrowed to the element at `index`. The result may fail:
    /// the `Vec` may be too short.
    fn index(self, index: usize) -> (path: Composed<
        State,
        Vec<Item>,
        Item,
        Self,
        VecIndex,
        SAFE,
        false,
    >)
        ensures
            path == composed::<State, Vec<Item>, Item, Self, VecIndex, SAFE, false>(
                self,
                VecIndex { index },
            ),
    {
        Composed { first: self, second: VecIndex { index }, marker: PhantomData }
    }
}

impl<State, T: Path<State, Vec<Item>, SAFE>, Item: 'static, const SAFE: bool> VecIndexExt<
    State,
    T,
    Item,
    SAFE,
> for T {

}

} // verus!
