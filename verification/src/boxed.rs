//! Accessor through a `Box` to the value it owns.

use crate::compose::{composed, Composed};
use crate::path::{Path, Selector};
use core::marker::PhantomData;
use vstd::prelude::*;

verus! {

/// The step from a `Box` to the value it owns. It cannot fail.
pub struct Unboxed<Inner> {
    pub marker: PhantomData<Inner>,
}

impl<Inner> Clone for Unboxed<Inner> {
    fn clone(&self) -> (copy: Self)
        ensures
            copy == *self,
    {
        *self
    }
}

impl<Inner> Copy for Unboxed<Inner> {

}

impl<Inner> Selector<Box<Inner>, Inner, true> for Unboxed<Inner> {
    open spec fn resolve(&self, state: Box<Inner>) -> Option<Inner> {
        Some(*state)
    }

    fn select<'a>(&'a self, state: &'a Box<Inner>) -> (found: Option<&'a Inner>) {
        self.follow(state)
    }
}

impl<Inner> Path<Box<Inner>, Inner, true> for Unboxed<Inner> {
    open spec fn replaces(&self, before: Box<Inner>, after: Box<Inner>, target: Inner) -> bool {
        *after == target
    }

    fn follow<'a>(&self, state: &'a Box<Inner>) -> (found: Option<&'a Inner>) {
        Some(&**state)
    }

    fn follow_mut<'a>(&self, state: &'a mut Box<Inner>) -> (found: Option<&'a mut Inner>) {
        Some(&mut **state)
    }
}

/// Unboxing as a method on every path to a `Box`.
pub trait BoxedExt<State, T, Inner: 'static, const SAFE: bool>: Path<State, Box<Inner>, SAFE> {
    /// This path, continued through the `Box` to the value it owns. The
    /// result is as guaranteed as this path is.
    fn unboxed(self) -> (path: Composed<
        State,
        Box<Inner>,
        Inner,
        Self,
        Unboxed<Inner>,
        SAFE,
        true,
    >)
        ensures
            path == composed::<State, Box<Inner>, Inner, Self, Unboxed<Inner>, SAFE, true>(
                self,
                Unboxed { marker: PhantomData },
            ),
    {
        Composed { first: self, second: Unboxed { marker: PhantomData }, marker: PhantomData }
    }
}

impl<State, T: Path<State, Box<Inner>, SAFE>, Inner: 'static, const SAFE: bool> BoxedExt<
    State,
    T,
    Inner,
    SAFE,
> for T {

}

} // verus!
