//! The identity accessor of a root state.

use crate::path::{Path, Selector};
use core::marker::PhantomData;
use vstd::prelude::*;

verus! {

/// Marks a type as the root of a state tree: the only kind of value a
/// container may own, and the only kind a [`RootPath`] starts from.
pub trait StateMarker {

}

/// The accessor every chain starts with: it resolves to the state itself.
pub struct RootPath<State> {
    pub marker: PhantomData<State>,
}

impl<State: StateMarker> RootPath<State> {
    /// The identity accessor of the root state `State`.
    pub fn new() -> (path: Self)
        ensures
            forall|state: State| #[trigger]
                Selector::<State, State, true>::resolve(&path, state) == Some(state),
    {
        RootPath { marker: PhantomData }
    }
}

impl<State> Clone for RootPath<State> {
    fn clone(&self) -> (copy: Self)
        ensures
            copy == *self,
    {
        *self
    }
}

impl<State> Copy for RootPath<State> {

}

impl<State> Selector<State, State, true> for RootPath<State> {
    open spec fn resolve(&self, state: State) -> Option<State> {
        Some(state)
    }

    fn select<'a>(&'a self, state: &'a State) -> (found: Option<&'a State>) {
        Some(state)
    }
}

impl<State> Path<State, State, true> for RootPath<State> {
    open spec fn replaces(&self, before: State, after: State, target: State) -> bool {
        after == target
    }

    fn follow<'a>(&self, state: &'a State) -> (found: Option<&'a State>) {
        Some(state)
    }

    fn follow_mut<'a>(&self, state: &'a mut State) -> (found: Option<&'a mut State>) {
        Some(state)
    }
}

} // verus!
