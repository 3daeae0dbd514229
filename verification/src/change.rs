//! Pending mutations: what a queued write will do to the state once it runs.

use crate::path::Path;
use core::marker::PhantomData;
use vstd::prelude::*;

verus! {

/// The meaning of one queued write.
///
/// A mutation is bound to a place in the state and to an effect on what
/// lives there. On a state where the place cannot be reached the mutation
/// `misses`; on any other it `rewrites` the state.
#[verifier::ext_equal]
#[verifier::reject_recursive_types(State)]
pub struct Mutation<State> {
    /// Whether navigation to the place fails on the given state.
    pub misses: spec_fn(State) -> bool,
    /// Whether the second state is a result of the effect on the first.
    pub rewrites: spec_fn(State, State) -> bool,
}

/// The mutation that follows `path` and replaces its target by one that
/// `edit` relates to it.
pub open spec fn written<State, Target, P: Path<State, Target, SAFE>, const SAFE: bool>(
    path: P,
    edit: spec_fn(Target, Target) -> bool,
) -> Mutation<State> {
    Mutation {
        misses: |before: State| path.resolve(before) is None,
        rewrites: |before: State, after: State|
            exists|target: Target|
                {
                    &&& path.resolve(before) is Some
                    &&& edit(path.resolve(before).unwrap(), target)
                    &&& #[trigger] path.replaces(before, after, target)
                },
    }
}

/// Whether running `mutation` on `before` can leave `after`, with `dropped`
/// telling how many mutations (none or one) were dropped in doing so.
///
/// A mutation that misses is dropped and leaves the state as it was.
pub open spec fn applies<State>(
    mutation: Mutation<State>,
    before: State,
    after: State,
    dropped: int,
) -> bool {
    if (mutation.misses)(before) {
        after == before && dropped == 1
    } else {
        (mutation.rewrites)(before, after) && dropped == 0
    }
}

/// Whether running the mutations of `queue` front to back, each on the
/// state its predecessor left, can take `before` to `after` while dropping
/// `dropped` of them.
pub open spec fn runs<State>(
    queue: Seq<Mutation<State>>,
    before: State,
    after: State,
    dropped: int,
) -> bool
    decreases queue.len(),
{
    if queue.len() == 0 {
        after == before && dropped == 0
    } else {
        exists|mid: State, first: int|
            {
                &&& #[trigger] applies(queue[0], before, mid, first)
                &&& runs(queue.drop_first(), mid, after, dropped - first)
            }
    }
}

/// Running a single mutation is applying it.
pub proof fn lemma_runs_one<State>(
    mutation: Mutation<State>,
    before: State,
    after: State,
    dropped: int,
)
    ensures
        runs(seq![mutation], before, after, dropped) <==> applies(
            mutation,
            before,
            after,
            dropped,
        ),
{
    let queue = seq![mutation];
    assert(queue.drop_first() =~= Seq::empty());
    reveal_with_fuel(runs, 2);
    if applies(mutation, before, after, dropped) {
        assert(applies(queue[0], before, after, dropped));
        assert(runs(queue.drop_first(), after, after, dropped - dropped));
    }
}

/// Mutations run strictly one after another: running a queue is running
/// its front part and then, on the state that leaves, its back part. No
/// mutation sees the state as it was before an earlier one ran.
pub proof fn lemma_runs_in_order<State>(
    front: Seq<Mutation<State>>,
    back: Seq<Mutation<State>>,
    before: State,
    after: State,
    dropped: int,
)
    ensures
        runs(front + back, before, after, dropped) <==> exists|mid: State, early: int|
            #[trigger] runs(front, before, mid, early) && runs(back, mid, after, dropped - early),
    decreases front.len(),
{
    if front.len() == 0 {
        assert(front + back =~= back);
        if runs(back, before, after, dropped) {
            assert(runs(front, before, before, 0) && runs(back, before, after, dropped - 0));
        }
    } else {
        let whole = front + back;
        assert(whole[0] == front[0]);
        assert(whole.drop_first() =~= front.drop_first() + back);
        if runs(whole, before, after, dropped) {
            let (next, first) = choose|next: State, first: int|
                {
                    &&& #[trigger] applies(whole[0], before, next, first)
                    &&& runs(whole.drop_first(), next, after, dropped - first)
                };
            lemma_runs_in_order(front.drop_first(), back, next, after, dropped - first);
            let (mid, early) = choose|mid: State, early: int|
                #[trigger] runs(front.drop_first(), next, mid, early) && runs(
                    back,
                    mid,
                    after,
                    dropped - first - early,
                );
            assert(applies(front[0], before, next, first));
            assert(runs(front, before, mid, first + early));
            assert(runs(back, mid, after, dropped - (first + early)));
        }
        if exists|mid: State, early: int|
            #[trigger] runs(front, before, mid, early) && runs(back, mid, after, dropped - early) {
            let (mid, early) = choose|mid: State, early: int|
                #[trigger] runs(front, before, mid, early) && runs(
                    back,
                    mid,
                    after,
                    dropped - early,
                );
            let (next, first) = choose|next: State, first: int|
                {
                    &&& #[trigger] applies(front[0], before, next, first)
                    &&& runs(front.drop_first(), next, mid, early - first)
                };
            lemma_runs_in_order(front.drop_first(), back, next, after, dropped - first);
            assert(runs(front.drop_first(), next, mid, early - first) && runs(
                back,
                mid,
                after,
                dropped - first - (early - first),
            ));
            assert(applies(whole[0], before, next, first));
            assert(runs(whole.drop_first(), next, after, dropped - first));
        }
    }
}

/// Three queued mutations leave what the first, then the second on its
/// result, then the third on that result leave.
pub proof fn lemma_three_run_in_order<State>(
    first: Mutation<State>,
    second: Mutation<State>,
    third: Mutation<State>,
    before: State,
    after: State,
    dropped: int,
)
    ensures
        runs(seq![first, second, third], before, after, dropped) <==> exists|
            one: State,
            two: State,
            early: int,
            late: int,
        |
            {
                &&& #[trigger] applies(first, before, one, early)
                &&& #[trigger] applies(second, one, two, late)
                &&& applies(third, two, after, dropped - early - late)
            },
{
    let queue = seq![first, second, third];
    let tail = seq![second, third];
    assert(queue.drop_first() =~= tail);
    assert(tail.drop_first() =~= seq![third]);
    reveal_with_fuel(runs, 2);
    if runs(queue, before, after, dropped) {
        let (one, early) = choose|one: State, early: int|
            {
                &&& #[trigger] applies(queue[0], before, one, early)
                &&& runs(queue.drop_first(), one, after, dropped - early)
            };
        let (two, late) = choose|two: State, late: int|
            {
                &&& #[trigger] applies(tail[0], one, two, late)
                &&& runs(tail.drop_first(), two, after, dropped - early - late)
            };
        lemma_runs_one(third, two, after, dropped - early - late);
        assert(applies(first, before, one, early) && applies(second, one, two, late));
    }
    if exists|one: State, two: State, early: int, late: int|
        {
            &&& #[trigger] applies(first, before, one, early)
            &&& #[trigger] applies(second, one, two, late)
            &&& applies(third, two, after, dropped - early - late)
        } {
        let (one, two, early, late) = choose|one: State, two: State, early: int, late: int|
            {
                &&& #[trigger] applies(first, before, one, early)
                &&& #[trigger] applies(second, one, two, late)
                &&& applies(third, two, after, dropped - early - late)
            };
        lemma_runs_one(third, two, after, dropped - early - late);
        assert(applies(tail[0], one, two, late));
        assert(runs(tail, one, after, dropped - early));
        assert(applies(queue[0], before, one, early));
    }
}

/// A mutation that misses when its turn comes is dropped in silence: the
/// queue with it leaves exactly what the queue without it leaves, and
/// counts one more dropped mutation.
pub proof fn lemma_missed_mutation_is_dropped<State>(
    front: Seq<Mutation<State>>,
    missed: Mutation<State>,
    back: Seq<Mutation<State>>,
    before: State,
    after: State,
    dropped: int,
)
    requires
        forall|mid: State, early: int| #[trigger]
            runs(front, before, mid, early) ==> (missed.misses)(mid),
    ensures
        runs(front.push(missed) + back, before, after, dropped + 1) <==> runs(
            front + back,
            before,
            after,
            dropped,
        ),
{
    let with = front.push(missed) + back;
    let tail = seq![missed] + back;
    assert(with =~= front + tail);
    lemma_runs_in_order(front, tail, before, after, dropped + 1);
    lemma_runs_in_order(front, back, before, after, dropped);
    assert(tail[0] == missed);
    assert(tail.drop_first() =~= back);
    if runs(with, before, after, dropped + 1) {
        let (mid, early) = choose|mid: State, early: int|
            #[trigger] runs(front, before, mid, early) && runs(
                tail,
                mid,
                after,
                dropped + 1 - early,
            );
        let (next, first) = choose|next: State, first: int|
            {
                &&& #[trigger] applies(tail[0], mid, next, first)
                &&& runs(tail.drop_first(), next, after, dropped + 1 - early - first)
            };
        assert(runs(front, before, mid, early) && runs(back, mid, after, dropped - early));
    }
    if runs(front + back, before, after, dropped) {
        let (mid, early) = choose|mid: State, early: int|
            #[trigger] runs(front, before, mid, early) && runs(back, mid, after, dropped - early);
        assert(applies(tail[0], mid, mid, 1));
        assert(runs(tail, mid, after, dropped + 1 - early));
    }
}

/// An effect on a target, ready to be carried out once.
pub(crate) trait Edit<Target> {
    /// Whether the edit can take the first target to the second.
    spec fn relation(&self) -> spec_fn(Target, Target) -> bool;

    /// Carries the edit out.
    fn apply(self, target: &mut Target)
        ensures
            (self.relation())(*old(target), *final(target)),
    ;
}

/// A queued write in executable form.
pub(crate) trait Change<State> {
    /// What the change means.
    spec fn model(&self) -> Mutation<State>;

    /// Runs the change, and tells whether it found its place.
    fn run(self: Box<Self>, state: &mut State) -> (applied: bool)
        ensures
            applies(self.model(), *old(state), *final(state), if applied { 0int } else { 1int }),
    ;
}

/// The change that follows `path` and carries `edit` out on its target.
pub(crate) struct Write<State, Target, P, E, const SAFE: bool> {
    pub path: P,
    pub edit: E,
    pub marker: PhantomData<(State, Target)>,
}

impl<
    State,
    Target,
    P: Path<State, Target, SAFE>,
    E: Edit<Target>,
    const SAFE: bool,
> Change<State> for Write<State, Target, P, E, SAFE> {
    open spec fn model(&self) -> Mutation<State> {
        written(self.path, self.edit.relation())
    }

    fn run(self: Box<Self>, state: &mut State) -> (applied: bool) {
        let write = *self;
        match write.path.follow_mut(state) {
            Some(target) => {
                write.edit.apply(target);
                true
            },
            None => false,
        }
    }
}

/// A change of any kind, as the queue holds it.
#[verifier::reject_recursive_types(State)]
pub(crate) struct Pending<State> {
    pub change: Box<dyn Change<State>>,
}

impl<State> Pending<State> {
    /// Wraps a write for the queue.
    pub(crate) fn new<
        Target: 'static,
        P: Path<State, Target, SAFE> + 'static,
        E: Edit<Target> + 'static,
        const SAFE: bool,
    >(path: P, edit: E) -> (pending: Self) where State: 'static
        ensures
            pending.change.model() == written(path, edit.relation()),
    {
        Pending { change: Box::new(Write { path, edit, marker: PhantomData }) }
    }
}

} // verus!
