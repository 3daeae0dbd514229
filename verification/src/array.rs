//! Accessors into the elements of a fixed-size array.

use crate::compose::{composed, Composed};
use crate::path::{Path, Selector};
use core::marker::PhantomData;
use vstd::prelude::*;

verus! {

/// The step from an array to the element at a fixed position.
pub struct ArrayLookup {
    pub index: usize,
}

impl Clone for ArrayLookup {
    fn clone(&self) -> (copy: Self)
        ensures
            copy == *self,
    {
        *self
    }
}

impl Copy for ArrayLookup {

}

impl<Item, const N: usize> Selector<[Item; N], Item, false> for ArrayLookup {
    open spec fn resolve(&self, state: [Item; N]) -> Option<Item> {
        if self.index < N {
            Some(state@[self.index as int])
        } else {
            None
        }
    }

    fn select<'a>(&'a self, state: &'a [Item; N]) -> (found: Option<&'a Item>) {
        self.follow(state)
    }
}

impl<Item, const N: usize> Path<[Item; N], Item, false> for ArrayLookup {
    open spec fn replaces(&self, before: [Item; N], after: [Item; N], target: Item) -> bool {
        self.index < N && after@ == before@.update(self.index as int, target)
    }

    fn follow<'a>(&self, state: &'a [Item; N]) -> (found: Option<&'a Item>) {
        if self.index < N {
            Some(&state[self.index])
        } else {
            None
        }
    }

    fn follow_mut<'a>(&self, state: &'a mut [Item; N]) -> (found: Option<&'a mut Item>) {
        if self.index < N {
            Some(&mut state[self.index])
        } else {
            None
        }
    }
}

/// Positional indexing as a method on every path to an array.
pub trait ArrayLookupExt<State, T, Item: 'static, const N: usize, const SAFE: bool>: Path<
    State,
    [Item; N],
    SAFE,
> {
    /// This path, narrowed to the element at `index`. The result may fail:
    /// the index may lie beyond the end of the array.
    fn array_index(self, index: usize) -> (path: Composed<
        State,
        [Item; N],
        Item,
        Self,
        ArrayLookup,
        SAFE,
        false,
    >)
        ensures
            path == composed::<State, [Item; N], Item, Self, ArrayLookup, SAFE, false>(
                self,
                ArrayLookup { index },
            ),
    {
        Composed { first: self, second: ArrayLookup { index }, marker: PhantomData }
    }
}

impl<
    State,
    T: Path<State, [Item; N], SAFE>,
    Item: 'static,
    const N: usize,
    const SAFE: bool,
> ArrayLookupExt<State, T, Item, N, SAFE> for T {

}

} // verus!
