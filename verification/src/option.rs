//! Accessor into the value an `Option` holds.

use crate::compose::{composed, Composed};
use crate::path::{Path, Selector};
use core::marker::PhantomData;
use vstd::prelude::*;

verus! {

/// The step from an `Option` to the value it holds.
pub struct OptionUnwrapped;

impl Clone for OptionUnwrapped {
    fn clone(&self) -> (copy: Self)
        ensures
            copy == *self,
    {
        *self
    }
}

impl Copy for OptionUnwrapped {

}

impl<Unwrapped> Selector<Option<Unwrapped>, Unwrapped, false> for OptionUnwrapped {
    open spec fn resolve(&self, state: Option<Unwrapped>) -> Option<Unwrapped> {
        state
    }

    fn select<'a>(&'a self, state: &'a Option<Unwrapped>) -> (found: Option<&'a Unwrapped>) {
        self.follow(state)
    }
}

impl<Unwrapped> Path<Option<Unwrapped>, Unwrapped, false> for OptionUnwrapped {
    open spec fn replaces(
        &self,
        before: Option<Unwrapped>,
        after: Option<Unwrapped>,
        target: Unwrapped,
    ) -> bool {
        before is Some && after == Some(target)
    }

    fn follow<'a>(&self, state: &'a Option<Unwrapped>) -> (found: Option<&'a Unwrapped>) {
        state.as_ref()
    }

    fn follow_mut<'a>(&self, state: &'a mut Option<Unwrapped>) -> (found: Option<
        &'a mut Unwrapped,
    >) {
        state.as_mut()
    }
}

/// Unwrapping as a method on every path to an `Option`.
pub trait OptionExt<State, T, Unwrapped: 'static, const SAFE: bool>: Path<
    State,
    Option<Unwrapped>,
    SAFE,
> {
    /// This path, narrowed to the value inside the `Option`. The result may
    /// fail: the `Option` may be empty.
    fn unwrapped(self) -> (path: Composed<
        State,
        Option<Unwrapped>,
        Unwrapped,
        Self,
        OptionUnwrapped,
        SAFE,
        false,
    >)
        ensures
            path == composed::<
                State,
                Option<Unwrapped>,
                Unwrapped,
                Self,
                OptionUnwrapped,
                SAFE,
                false,
            >(self, OptionUnwrapped),
    {
        Composed { first: self, second: OptionUnwrapped, marker: PhantomData }
    }
}

impl<
    State,
    T: Path<State, Option<Unwrapped>, SAFE>,
    Unwrapped: 'static,
    const SAFE: bool,
> OptionExt<State, T, Unwrapped, SAFE> for T {

}

} // verus!
