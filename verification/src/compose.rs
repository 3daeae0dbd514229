//! Composition of accessors, and the laws it obeys.

use crate::path::{Path, Selector};
use crate::root::RootPath;
use core::marker::PhantomData;
use vstd::prelude::*;

verus! {

/// Carrier of the conjunction of fallibility tags, computed in the types.
pub struct Guarantee;

/// `BOTH` is the conjunction of `FIRST` and `SECOND`.
///
/// [`Guarantee`] implements this for every pair of tags, so a composition
/// has exactly one tag: that of both parts taken together.
pub trait Conjunction<const FIRST: bool, const SECOND: bool, const BOTH: bool> {
    /// The three tags are related as the name says.
    proof fn conjunction()
        ensures
            BOTH == (FIRST && SECOND),
    ;
}

impl<const FIRST: bool> Conjunction<FIRST, false, false> for Guarantee {
    proof fn conjunction() {
    }
}

impl<const FIRST: bool> Conjunction<FIRST, true, FIRST> for Guarantee {
    proof fn conjunction() {
    }
}

/// `first` followed by `second`: an accessor from `State` to `To` by way of
/// `Mid`.
pub struct Composed<State, Mid, To, A, B, const SA: bool, const SB: bool> {
    pub first: A,
    pub second: B,
    pub marker: PhantomData<(State, Mid, To)>,
}

/// The composition of `first` and `second`.
pub open spec fn composed<State, Mid, To, A, B, const SA: bool, const SB: bool>(
    first: A,
    second: B,
) -> Composed<State, Mid, To, A, B, SA, SB> {
    Composed { first, second, marker: PhantomData }
}

impl<State, Mid, To, A: Copy, B: Copy, const SA: bool, const SB: bool> Clone for Composed<
    State,
    Mid,
    To,
    A,
    B,
    SA,
    SB,
> {
    fn clone(&self) -> (copy: Self)
        ensures
            copy == *self,
    {
        *self
    }
}

impl<State, Mid, To, A: Copy, B: Copy, const SA: bool, const SB: bool> Copy for Composed<
    State,
    Mid,
    To,
    A,
    B,
    SA,
    SB,
> {

}

impl<
    State,
    Mid: 'static,
    To,
    A: Path<State, Mid, SA>,
    B: Path<Mid, To, SB>,
    const SA: bool,
    const SB: bool,
    const SAFE: bool,
> Selector<State, To, SAFE> for Composed<State, Mid, To, A, B, SA, SB> where
    Guarantee: Conjunction<SA, SB, SAFE>,
 {
    open spec fn resolve(&self, state: State) -> Option<To> {
        match self.first.resolve(state) {
            Some(mid) => self.second.resolve(mid),
            None => None,
        }
    }

    fn select<'a>(&'a self, state: &'a State) -> (found: Option<&'a To>) {
        self.follow(state)
    }
}

impl<
    State,
    Mid: 'static,
    To,
    A: Path<State, Mid, SA>,
    B: Path<Mid, To, SB>,
    const SA: bool,
    const SB: bool,
    const SAFE: bool,
> Path<State, To, SAFE> for Composed<State, Mid, To, A, B, SA, SB> where
    Guarantee: Conjunction<SA, SB, SAFE>,
 {
    open spec fn replaces(&self, before: State, after: State, target: To) -> bool {
        exists|mid: Mid|
            {
                &&& self.first.resolve(before) is Some
                &&& #[trigger] self.second.replaces(self.first.resolve(before).unwrap(), mid, target)
                &&& self.first.replaces(before, after, mid)
            }
    }

    fn follow<'a>(&self, state: &'a State) -> (found: Option<&'a To>) {
        match self.first.follow(state) {
            Some(mid) => self.second.follow(mid),
            None => None,
        }
    }

    fn follow_mut<'a>(&self, state: &'a mut State) -> (found: Option<&'a mut To>) {
        // Look before borrowing: once `first` has handed out its target, a
        // failure of `second` could no longer promise an untouched state.
        if self.follow(state).is_none() {
            return None;
        }
        match self.first.follow_mut(state) {
            Some(mid) => self.second.follow_mut(mid),
            None => None,
        }
    }
}

/// Composition as a method on every path.
pub trait ComposeExt<State, Mid, const SAFE: bool>: Path<State, Mid, SAFE> {
    /// This path followed by `next`.
    fn compose<To, B: Path<Mid, To, SB>, const SB: bool>(self, next: B) -> (path: Composed<
        State,
        Mid,
        To,
        Self,
        B,
        SAFE,
        SB,
    >)
        ensures
            path == composed::<State, Mid, To, Self, B, SAFE, SB>(self, next),
    {
        Composed { first: self, second: next, marker: PhantomData }
    }
}

impl<State, Mid, T: Path<State, Mid, SAFE>, const SAFE: bool> ComposeExt<State, Mid, SAFE> for T {

}

/// The fallibility tag of a selector, as a value: whether it is guaranteed.
pub open spec fn guaranteed<State, To, S: Selector<State, To, SAFE>, const SAFE: bool>(
    selector: S,
) -> bool {
    SAFE
}

/// Whether two accessors navigate identically: on every state they resolve
/// to the same target, and replace it in the same way.
pub open spec fn navigates_as<
    State,
    To,
    P: Path<State, To, SP>,
    Q: Path<State, To, SQ>,
    const SP: bool,
    const SQ: bool,
>(path: P, other: Q) -> bool {
    &&& forall|state: State| #[trigger] path.resolve(state) == other.resolve(state)
    &&& forall|before: State, after: State, target: To| #[trigger]
        path.replaces(before, after, target) <==> other.replaces(before, after, target)
}

/// A composition is guaranteed exactly when both of its parts are: two
/// guaranteed accessors compose to a guaranteed one, and a fallible part on
/// either side makes the whole fallible.
pub proof fn lemma_guarantee_propagates<
    State,
    Mid: 'static,
    To,
    A: Path<State, Mid, SA>,
    B: Path<Mid, To, SB>,
    const SA: bool,
    const SB: bool,
    const SAFE: bool,
>(first: A, second: B) where Guarantee: Conjunction<SA, SB, SAFE>
    ensures
        guaranteed::<State, To, Composed<State, Mid, To, A, B, SA, SB>, SAFE>(
            composed(first, second),
        ) == (guaranteed::<State, Mid, A, SA>(first) && guaranteed::<Mid, To, B, SB>(second)),
{
    <Guarantee as Conjunction<SA, SB, SAFE>>::conjunction();
}

/// Composition is associative: `a` composed with `b` and the result with
/// `c`, and `a` composed with the composition of `b` and `c`, carry the
/// same tag and navigate identically.
pub proof fn lemma_composition_is_associative<
    State,
    Mid: 'static,
    Far: 'static,
    To,
    A: Path<State, Mid, SA>,
    B: Path<Mid, Far, SB>,
    C: Path<Far, To, SC>,
    const SA: bool,
    const SB: bool,
    const SC: bool,
    const SAB: bool,
    const SBC: bool,
    const LEFT: bool,
    const RIGHT: bool,
>(a: A, b: B, c: C) where
    Guarantee: Conjunction<SA, SB, SAB>,
    Guarantee: Conjunction<SAB, SC, LEFT>,
    Guarantee: Conjunction<SB, SC, SBC>,
    Guarantee: Conjunction<SA, SBC, RIGHT>,

    ensures
        LEFT == RIGHT,
        navigates_as::<
            State,
            To,
            Composed<State, Far, To, Composed<State, Mid, Far, A, B, SA, SB>, C, SAB, SC>,
            Composed<State, Mid, To, A, Composed<Mid, Far, To, B, C, SB, SC>, SA, SBC>,
            LEFT,
            RIGHT,
        >(composed(composed(a, b), c), composed(a, composed(b, c))),
{
    <Guarantee as Conjunction<SA, SB, SAB>>::conjunction();
    <Guarantee as Conjunction<SAB, SC, LEFT>>::conjunction();
    <Guarantee as Conjunction<SB, SC, SBC>>::conjunction();
    <Guarantee as Conjunction<SA, SBC, RIGHT>>::conjunction();
    let ab = composed::<State, Mid, Far, A, B, SA, SB>(a, b);
    let bc = composed::<Mid, Far, To, B, C, SB, SC>(b, c);
    let left = composed::<State, Far, To, Composed<State, Mid, Far, A, B, SA, SB>, C, SAB, SC>(
        ab,
        c,
    );
    let right = composed::<State, Mid, To, A, Composed<Mid, Far, To, B, C, SB, SC>, SA, SBC>(
        a,
        bc,
    );
    assert(ab.first == a && ab.second == b);
    assert(bc.first == b && bc.second == c);
    assert(left.first == ab && left.second == c);
    assert(right.first == a && right.second == bc);
    assert forall|before: State, after: State, target: To|
        Path::<State, To, LEFT>::replaces(&left, before, after, target) implies Path::<
            State,
            To,
            RIGHT,
        >::replaces(&right, before, after, target) by {
        let reached = Selector::<State, Far, SAB>::resolve(&ab, before);
        let far = choose|far: Far|
            {
                &&& reached is Some
                &&& #[trigger] c.replaces(reached.unwrap(), far, target)
                &&& Path::<State, Far, SAB>::replaces(&ab, before, after, far)
            };
        let mid = choose|mid: Mid|
            {
                &&& a.resolve(before) is Some
                &&& #[trigger] b.replaces(a.resolve(before).unwrap(), mid, far)
                &&& a.replaces(before, after, mid)
            };
        let start = a.resolve(before).unwrap();
        assert(reached == b.resolve(start));
        assert(c.replaces(b.resolve(start).unwrap(), far, target));
        assert(Path::<Mid, To, SBC>::replaces(&bc, a.resolve(before).unwrap(), mid, target));
    }
    assert forall|before: State, after: State, target: To|
        Path::<State, To, RIGHT>::replaces(&right, before, after, target) implies Path::<
            State,
            To,
            LEFT,
        >::replaces(&left, before, after, target) by {
        let mid = choose|mid: Mid|
            {
                &&& a.resolve(before) is Some
                &&& #[trigger] Path::<Mid, To, SBC>::replaces(
                    &bc,
                    a.resolve(before).unwrap(),
                    mid,
                    target,
                )
                &&& a.replaces(before, after, mid)
            };
        let start = a.resolve(before).unwrap();
        let far = choose|far: Far|
            {
                &&& b.resolve(start) is Some
                &&& #[trigger] c.replaces(b.resolve(start).unwrap(), far, target)
                &&& b.replaces(start, mid, far)
            };
        let reached = Selector::<State, Far, SAB>::resolve(&ab, before);
        assert(reached == b.resolve(start));
        assert(b.replaces(a.resolve(before).unwrap(), mid, far));
        assert(Path::<State, Far, SAB>::replaces(&ab, before, after, far));
        assert(c.replaces(reached.unwrap(), far, target));
    }
}

/// The root accessor is a left identity of composition: the root composed
/// with `a` carries the tag of `a` and navigates as `a` does.
pub proof fn lemma_root_is_left_identity<
    State: 'static,
    To,
    A: Path<State, To, SA>,
    const SA: bool,
    const SAFE: bool,
>(root: RootPath<State>, a: A) where Guarantee: Conjunction<true, SA, SAFE>
    ensures
        SAFE == SA,
        navigates_as::<
            State,
            To,
            Composed<State, State, To, RootPath<State>, A, true, SA>,
            A,
            SAFE,
            SA,
        >(composed(root, a), a),
{
    <Guarantee as Conjunction<true, SA, SAFE>>::conjunction();
    let rooted = composed::<State, State, To, RootPath<State>, A, true, SA>(root, a);
    assert(rooted.first == root && rooted.second == a);
    assert forall|before: State, after: State, target: To|
        a.replaces(before, after, target) implies Path::<State, To, SAFE>::replaces(
        &rooted,
        before,
        after,
        target,
    ) by {
        assert(Selector::<State, State, true>::resolve(&root, before) == Some(before));
        assert(a.replaces(
            Selector::<State, State, true>::resolve(&root, before).unwrap(),
            after,
            target,
        ));
        assert(root.replaces(before, after, after));
    }
}

} // verus!
