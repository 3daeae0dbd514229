//! The two capabilities every accessor is built from: [`Selector`], which
//! reads, and [`Path`], which also navigates for writing.

use vstd::prelude::*;

verus! {

/// Whether the reference an accessor handed out is the one its model names:
/// present exactly when the model is, and then pointing at an equal value.
pub open spec fn yields<To>(found: Option<&To>, expected: Option<To>) -> bool {
    match found {
        Some(target) => expected == Some(*target),
        None => expected is None,
    }
}

/// Read-only resolution of a `To` from a `State`.
///
/// `SAFE` is the static fallibility tag: `true` marks a selector that is
/// expected to resolve on every state it is used with, `false` one that may
/// legitimately come back empty.
pub trait Selector<State, To, const SAFE: bool> {
    /// The value this selector resolves to on `state`, if any.
    spec fn resolve(&self, state: State) -> Option<To>;

    /// Resolves the target on `state`.
    fn select<'a>(&'a self, state: &'a State) -> (found: Option<&'a To>)
        ensures
            yields(found, self.resolve(*state)),
    ;
}

/// Every value selects itself, whatever the state: a call site that takes a
/// selector accepts a literal as readily as a path.
impl<State, T> Selector<State, T, true> for T {
    open spec fn resolve(&self, state: State) -> Option<T> {
        Some(*self)
    }

    fn select<'a>(&'a self, state: &'a State) -> (found: Option<&'a T>) {
        Some(self)
    }
}

/// A copyable description of where a `To` lives inside a `State`.
///
/// Reading and writing navigate the same way: both are specified against
/// [`Selector::resolve`], so on any state `follow` and `follow_mut` agree on
/// whether the target exists, and `select` agrees with both.
pub trait Path<State, To, const SAFE: bool>: Selector<State, To, SAFE> + Copy {
    /// Whether `after` is `before` with the target of this path replaced by
    /// `target`. Only meaningful where the path resolves on `before`.
    spec fn replaces(&self, before: State, after: State, target: To) -> bool;

    /// Follows the path to a shared reference to its target.
    fn follow<'a>(&self, state: &'a State) -> (found: Option<&'a To>)
        ensures
            yields(found, self.resolve(*state)),
    ;

    /// Follows the path to an exclusive reference to its target.
    ///
    /// Whatever the caller leaves behind the reference is what the state
    /// holds at that place afterwards; a failed navigation leaves the state
    /// as it was.
    fn follow_mut<'a>(&self, state: &'a mut State) -> (found: Option<&'a mut To>)
        ensures
            match found {
                Some(target) => {
                    &&& self.resolve(*old(state)) == Some(*target)
                    &&& self.replaces(*old(state), *final(state), *final(target))
                },
                None => self.resolve(*old(state)) is None && *final(state) == *old(state),
            },
    ;
}

/// Reading and writing are consistent: on one state, whatever `follow`
/// returns and whatever `follow_mut` returns agree on whether the target
/// exists, and point at equal values where it does.
pub proof fn lemma_follow_agrees_with_follow_mut<
    State,
    To,
    P: Path<State, To, SAFE>,
    const SAFE: bool,
>(path: P, state: State, read: Option<&To>, borrowed: &mut State, write: Option<&mut To>)
    requires
        *borrowed == state,
        call_ensures(<P as Path<State, To, SAFE>>::follow, (&path, &state), read),
        call_ensures(<P as Path<State, To, SAFE>>::follow_mut, (&path, borrowed), write),
    ensures
        read is Some <==> write is Some,
        read is Some ==> *read.unwrap() == *write.unwrap(),
{
}

} // verus!
