//! The container that owns the root state, reads it through accessors, and
//! queues writes to it until they are applied.

use crate::change::{applies, runs, written, Mutation, Pending};
use crate::edit::{
    appends, inserts, inserts_default, overwrites, removes_id, removes_key, transforms, Insert,
    InsertDefault, Overwrite, Push, RemoveById, RemoveKey, Transform,
};
use crate::map::MapItem;
use crate::path::{yields, Path, Selector};
use crate::root::StateMarker;
use crate::vec::VecItem;
use std::collections::HashMap;
use std::collections::VecDeque;
use vstd::prelude::*;

verus! {

/// The writes queued against a state, oldest first.
///
/// Queuing a write needs the queue alone, not the state: a caller that has
/// [split](Context::split) a container can go on reading the state while it
/// queues writes to it.
#[verifier::reject_recursive_types(State)]
pub struct Queue<State> {
    state_changes: VecDeque<Pending<State>>,
}

impl<State> Queue<State> {
    /// The queued mutations, oldest first.
    pub closed spec fn pending(&self) -> Seq<Mutation<State>> {
        self.state_changes@.map_values(|pending: Pending<State>| pending.change.model())
    }

    fn new() -> (queue: Self)
        ensures
            queue.pending() == Seq::<Mutation<State>>::empty(),
    {
        let queue = Queue { state_changes: VecDeque::new() };
        assert(queue.pending() =~= Seq::<Mutation<State>>::empty());
        queue
    }

    fn push_change(&mut self, state_change: Pending<State>)
        ensures
            final(self).pending() == old(self).pending().push(state_change.change.model()),
    {
        self.state_changes.push_back(state_change);
        assert(self.pending() =~= old(self).pending().push(state_change.change.model()));
    }

    /// Takes the oldest change off the queue, if there is one.
    fn pop_change(&mut self) -> (state_change: Option<Pending<State>>)
        ensures
            match state_change {
                Some(pending) => {
                    &&& old(self).pending().len() > 0
                    &&& pending.change.model() == old(self).pending()[0]
                    &&& final(self).pending() == old(self).pending().drop_first()
                },
                None => old(self).pending().len() == 0 && final(self).pending() == old(
                    self,
                ).pending(),
            },
    {
        let state_change = self.state_changes.pop_front();
        assert(self.pending() =~= if state_change is Some {
            old(self).pending().drop_first()
        } else {
            old(self).pending()
        });
        state_change
    }

    /// How many changes are queued.
    fn len(&self) -> (len: usize)
        ensures
            len == self.pending().len(),
    {
        self.state_changes.len()
    }

    /// Queues overwriting the target of `path` with `value`.
    pub fn update_value<P, Value, const SAFE: bool>(&mut self, path: P, value: Value) where
        State: 'static,
        P: Path<State, Value, SAFE> + 'static,
        Value: 'static,

        ensures
            final(self).pending() == old(self).pending().push(
                written(path, overwrites(value)),
            ),
    {
        self.push_change(Pending::new(path, Overwrite { value }));
    }

    /// Queues replacing the target of `path` by what `closure` makes of it.
    ///
    /// The closure is called when the queue is applied, on whatever the
    /// target then is, so it has to accept every target.
    pub fn update_value_with<P, Value, F, const SAFE: bool>(&mut self, path: P, closure: F) where
        State: 'static,
        P: Path<State, Value, SAFE> + 'static,
        Value: 'static,
        F: Fn(&Value) -> Value + 'static,

        requires
            forall|target: Value| call_requires(closure, (&target,)),
        ensures
            final(self).pending() == old(self).pending().push(
                written(path, transforms(closure)),
            ),
    {
        self.push_change(Pending::new(path, Transform::new(closure)));
    }

    /// Queues appending `value` to the `Vec` that `path` leads to.
    pub fn vec_push<P, Value, const SAFE: bool>(&mut self, path: P, value: Value) where
        State: 'static,
        P: Path<State, Vec<Value>, SAFE> + 'static,
        Value: 'static,

        ensures
            final(self).pending() == old(self).pending().push(
                written(path, appends(value)),
            ),
    {
        self.push_change(Pending::new(path, Push { item: value }));
    }

    /// Queues removing every element that carries the identity `id` from
    /// the `Vec` that `path` leads to.
    pub fn vec_remove<P, Value, const SAFE: bool>(&mut self, path: P, id: Value::Id) where
        State: 'static,
        P: Path<State, Vec<Value>, SAFE> + 'static,
        Value: VecItem + 'static,

        ensures
            final(self).pending() == old(self).pending().push(
                written(path, removes_id::<Value>(id)),
            ),
    {
        self.push_change(Pending::new(path, RemoveById::<Value> { id }));
    }

    /// Queues storing `value` under `id` in the `HashMap` that `path` leads
    /// to, in place of what is stored there.
    pub fn map_insert<P, Value, const SAFE: bool>(&mut self, path: P, id: Value::Id, value: Value) where
        State: 'static,
        P: Path<State, HashMap<Value::Id, Value>, SAFE> + 'static,
        Value: MapItem + 'static,

        ensures
            final(self).pending() == old(self).pending().push(
                written(path, inserts(id, value)),
            ),
    {
        self.push_change(Pending::new(path, Insert { id, item: value }));
    }

    /// Queues storing a default value under `id` in the `HashMap` that
    /// `path` leads to, unless a value is stored there when the queue is
    /// applied.
    pub fn map_insert_default<P, Value, const SAFE: bool>(&mut self, path: P, id: Value::Id) where
        State: 'static,
        P: Path<State, HashMap<Value::Id, Value>, SAFE> + 'static,
        Value: MapItem + Default + 'static,

        ensures
            final(self).pending() == old(self).pending().push(
                written(path, inserts_default::<Value>(id)),
            ),
    {
        self.push_change(Pending::new(path, InsertDefault::<Value> { id }));
    }

    /// Queues removing what is stored under `id` from the `HashMap` that
    /// `path` leads to.
    pub fn map_remove<P, Value, const SAFE: bool>(&mut self, path: P, id: Value::Id) where
        State: 'static,
        P: Path<State, HashMap<Value::Id, Value>, SAFE> + 'static,
        Value: MapItem + 'static,

        ensures
            final(self).pending() == old(self).pending().push(
                written(path, removes_key::<Value>(id)),
            ),
    {
        self.push_change(Pending::new(path, RemoveKey::<Value> { id }));
    }
}

/// Owner of one root state and of the writes queued against it.
///
/// Reads see the state as the last [`apply`](Context::apply) left it. A
/// write only joins the queue; the state does not change until the queue is
/// applied.
#[verifier::reject_recursive_types(State)]
pub struct Context<State> {
    state: State,
    queue: Queue<State>,
}

impl<State: StateMarker> Context<State> {
    /// A container for `state`, with nothing queued.
    pub fn new(state: State) -> (context: Self)
        ensures
            context.state() == state,
            context.pending() == Seq::<Mutation<State>>::empty(),
    {
        Context { state, queue: Queue::new() }
    }
}

impl<State> Context<State> {
    /// The state as reads see it.
    pub closed spec fn state(&self) -> State {
        self.state
    }

    /// The queued mutations, oldest first.
    pub closed spec fn pending(&self) -> Seq<Mutation<State>> {
        self.queue.pending()
    }

    /// Lends out the state for reading together with the queue for writing.
    ///
    /// References read out of the state stay usable while writes are
    /// queued: nothing that joins the queue touches the state.
    pub fn split(&mut self) -> (parts: (&State, &mut Queue<State>))
        ensures
            *parts.0 == old(self).state(),
            parts.1.pending() == old(self).pending(),
            final(self).state() == old(self).state(),
            final(self).pending() == final(parts.1).pending(),
    {
        (&self.state, &mut self.queue)
    }

    /// Queues overwriting the target of `path` with `value`.
    pub fn update_value<P, Value, const SAFE: bool>(&mut self, path: P, value: Value) where
        State: 'static,
        P: Path<State, Value, SAFE> + 'static,
        Value: 'static,

        ensures
            final(self).state() == old(self).state(),
            final(self).pending() == old(self).pending().push(
                written(path, overwrites(value)),
            ),
    {
        self.queue.update_value(path, value);
    }

    /// Queues replacing the target of `path` by what `closure` makes of it.
    ///
    /// The closure is called when the queue is applied, on whatever the
    /// target then is, so it has to accept every target.
    pub fn update_value_with<P, Value, F, const SAFE: bool>(&mut self, path: P, closure: F) where
        State: 'static,
        P: Path<State, Value, SAFE> + 'static,
        Value: 'static,
        F: Fn(&Value) -> Value + 'static,

        requires
            forall|target: Value| call_requires(closure, (&target,)),
        ensures
            final(self).state() == old(self).state(),
            final(self).pending() == old(self).pending().push(
                written(path, transforms(closure)),
            ),
    {
        self.queue.update_value_with(path, closure);
    }

    /// Queues appending `value` to the `Vec` that `path` leads to.
    pub fn vec_push<P, Value, const SAFE: bool>(&mut self, path: P, value: Value) where
        State: 'static,
        P: Path<State, Vec<Value>, SAFE> + 'static,
        Value: 'static,

        ensures
            final(self).state() == old(self).state(),
            final(self).pending() == old(self).pending().push(
                written(path, appends(value)),
            ),
    {
        self.queue.vec_push(path, value);
    }

    /// Queues removing every element that carries the identity `id` from
    /// the `Vec` that `path` leads to.
    pub fn vec_remove<P, Value, const SAFE: bool>(&mut self, path: P, id: Value::Id) where
        State: 'static,
        P: Path<State, Vec<Value>, SAFE> + 'static,
        Value: VecItem + 'static,

        ensures
            final(self).state() == old(self).state(),
            final(self).pending() == old(self).pending().push(
                written(path, removes_id::<Value>(id)),
            ),
    {
        self.queue.vec_remove(path, id);
    }

    /// Queues storing `value` under `id` in the `HashMap` that `path` leads
    /// to, in place of what is stored there.
    pub fn map_insert<P, Value, const SAFE: bool>(&mut self, path: P, id: Value::Id, value: Value) where
        State: 'static,
        P: Path<State, HashMap<Value::Id, Value>, SAFE> + 'static,
        Value: MapItem + 'static,

        ensures
            final(self).state() == old(self).state(),
            final(self).pending() == old(self).pending().push(
                written(path, inserts(id, value)),
            ),
    {
        self.queue.map_insert(path, id, value);
    }

    /// Queues storing a default value under `id` in the `HashMap` that
    /// `path` leads to, unless a value is stored there when the queue is
    /// applied.
    pub fn map_insert_default<P, Value, const SAFE: bool>(&mut self, path: P, id: Value::Id) where
        State: 'static,
        P: Path<State, HashMap<Value::Id, Value>, SAFE> + 'static,
        Value: MapItem + Default + 'static,

        ensures
            final(self).state() == old(self).state(),
            final(self).pending() == old(self).pending().push(
                written(path, inserts_default::<Value>(id)),
            ),
    {
        self.queue.map_insert_default(path, id);
    }

    /// Queues removing what is stored under `id` from the `HashMap` that
    /// `path` leads to.
    pub fn map_remove<P, Value, const SAFE: bool>(&mut self, path: P, id: Value::Id) where
        State: 'static,
        P: Path<State, HashMap<Value::Id, Value>, SAFE> + 'static,
        Value: MapItem + 'static,

        ensures
            final(self).state() == old(self).state(),
            final(self).pending() == old(self).pending().push(
                written(path, removes_key::<Value>(id)),
            ),
    {
        self.queue.map_remove(path, id);
    }

    /// Applies the queued mutations, oldest first, each to the state its
    /// predecessor left, and empties the queue. A mutation whose path does
    /// not resolve when its turn comes is dropped without effect; the
    /// result counts those, for whoever wants to report them.
    pub fn apply(&mut self) -> (dropped: usize)
        ensures
            runs(old(self).pending(), old(self).state(), final(self).state(), dropped as int),
            final(self).pending() == Seq::<Mutation<State>>::empty(),
    {
        let ghost queue = self.pending();
        let ghost state = self.state;
        let queued = self.queue.len();
        let mut dropped: usize = 0;
        loop
            invariant
                queue == old(self).pending(),
                state == old(self).state(),
                dropped + self.pending().len() <= queued,
                forall|end: State, later: int| #[trigger]
                    runs(self.pending(), self.state, end, later) ==> runs(
                        queue,
                        state,
                        end,
                        later + dropped,
                    ),
            decreases self.pending().len(),
        {
            let ghost rest = self.pending();
            let ghost before = self.state;
            match self.queue.pop_change() {
                Some(pending) => {
                    let applied = pending.change.run(&mut self.state);
                    let ghost first: int = if applied { 0 } else { 1 };
                    if !applied {
                        dropped += 1;
                    }
                    proof {
                        assert forall|end: State, later: int| #[trigger]
                            runs(self.pending(), self.state, end, later) implies runs(
                            queue,
                            state,
                            end,
                            later + dropped,
                        ) by {
                            assert(applies(rest[0], before, self.state, first));
                            assert(runs(rest, before, end, later + first));
                        }
                    }
                },
                None => {
                    proof {
                        assert(self.pending() =~= Seq::<Mutation<State>>::empty());
                        assert(runs(self.pending(), self.state, self.state, 0));
                    }
                    return dropped;
                },
            }
        }
    }

    /// Reads through a guaranteed selector.
    ///
    /// A guaranteed selector that does not resolve has broken its contract.
    /// Such a read is a programming error, not an outcome: it is ruled out
    /// here, and never answered with a made-up value.
    pub fn get<'a, S, Output>(&'a self, selector: &'a S) -> (target: &'a Output) where
        S: Selector<State, Output, true>,

        requires
            selector.resolve(self.state()) is Some,
        ensures
            selector.resolve(self.state()) == Some(*target),
    {
        selector.select(&self.state).unwrap()
    }

    /// Reads through a fallible selector; `None` where it does not resolve.
    pub fn try_get<'a, S, Output>(&'a self, selector: &'a S) -> (target: Option<&'a Output>) where
        S: Selector<State, Output, false>,

        ensures
            yields(target, selector.resolve(self.state())),
    {
        selector.select(&self.state)
    }

    /// Reads through a path of either kind; `None` where it does not
    /// resolve. Meant for callers that are themselves generic over the tag.
    pub fn try_get_any<P, Output, const SAFE: bool>(&self, selector: P) -> (target: Option<
        &'_ Output,
    >) where P: Path<State, Output, SAFE>
        ensures
            yields(target, selector.resolve(self.state())),
    {
        selector.follow(&self.state)
    }

    /// Follows a guaranteed path.
    ///
    /// As with [`get`](Context::get), a guaranteed path that does not
    /// resolve is ruled out.
    pub fn follow<P, Output>(&self, path: P) -> (target: &Output) where
        P: Path<State, Output, true>,

        requires
            path.resolve(self.state()) is Some,
        ensures
            path.resolve(self.state()) == Some(*target),
    {
        path.follow(&self.state).unwrap()
    }

    /// Follows a fallible path; `None` where it does not resolve.
    pub fn try_follow<P, Output>(&self, path: P) -> (target: Option<&Output>) where
        P: Path<State, Output, false>,

        ensures
            yields(target, path.resolve(self.state())),
    {
        path.follow(&self.state)
    }

    /// Follows a path of either kind; `None` where it does not resolve.
    pub fn try_follow_any<P, Output, const SAFE: bool>(&self, path: P) -> (target: Option<
        &Output,
    >) where P: Path<State, Output, SAFE>
        ensures
            yields(target, path.resolve(self.state())),
    {
        path.follow(&self.state)
    }
}

} // verus!
