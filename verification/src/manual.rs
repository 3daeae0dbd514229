//! Promotion of a fallible path to a guaranteed one, on the caller's word.

use crate::path::{Path, Selector};
use core::marker::PhantomData;
use vstd::prelude::*;

verus! {

/// A fallible path that its user vouches for.
///
/// It navigates exactly as the path it wraps. Only the tag changes: nothing
/// is checked when the promotion is made, so a read that relies on the
/// guarantee is only as good as the caller's knowledge of the state.
pub struct ManuallyAsserted<State, AssertedPath, To> {
    pub path: AssertedPath,
    pub marker: PhantomData<(State, To)>,
}

impl<State, AssertedPath: Copy, To> Clone for ManuallyAsserted<State, AssertedPath, To> {
    fn clone(&self) -> (copy: Self)
        ensures
            copy == *self,
    {
        *self
    }
}

impl<State, AssertedPath: Copy, To> Copy for ManuallyAsserted<State, AssertedPath, To> {

}

impl<State, AssertedPath: Path<State, To, false>, To> Selector<
    State,
    To,
    true,
> for ManuallyAsserted<State, AssertedPath, To> {
    open spec fn resolve(&self, state: State) -> Option<To> {
        self.path.resolve(state)
    }

    fn select<'a>(&'a self, state: &'a State) -> (found: Option<&'a To>) {
        self.path.select(state)
    }
}

impl<State, AssertedPath: Path<State, To, false>, To> Path<State, To, true> for ManuallyAsserted<
    State,
    AssertedPath,
    To,
> {
    open spec fn replaces(&self, before: State, after: State, target: To) -> bool {
        self.path.replaces(before, after, target)
    }

    fn follow<'a>(&self, state: &'a State) -> (found: Option<&'a To>) {
        self.path.follow(state)
    }

    fn follow_mut<'a>(&self, state: &'a mut State) -> (found: Option<&'a mut To>) {
        self.path.follow_mut(state)
    }
}

/// Manual promotion as a method on every fallible path.
pub trait ManuallyAssertExt<State, To>: Path<State, To, false> {
    /// This path, tagged as guaranteed.
    fn manually_asserted(self) -> (path: ManuallyAsserted<State, Self, To>)
        ensures
            path == (ManuallyAsserted::<State, Self, To> { path: self, marker: PhantomData }),
    {
        ManuallyAsserted { path: self, marker: PhantomData }
    }
}

impl<State, To, T: Path<State, To, false>> ManuallyAssertExt<State, To> for T {

}

} // verus!
