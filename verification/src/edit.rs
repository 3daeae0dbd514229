//! The effects a queued write can have on its target.

use crate::change::Edit;
use crate::map::MapItem;
use crate::vec::VecItem;
use core::marker::PhantomData;
use std::collections::HashMap;
use vstd::prelude::*;
use vstd::std_specs::cmp::PartialEqSpec;

verus! {

broadcast use vstd::std_specs::hash::group_hash_axioms;

/// The target becomes `value`.
pub open spec fn overwrites<Value>(value: Value) -> spec_fn(Value, Value) -> bool {
    |before: Value, after: Value| after == value
}

/// The target becomes what `transform` returns for it.
pub open spec fn transforms<Value, F: Fn(&Value) -> Value>(transform: F) -> spec_fn(
    Value,
    Value,
) -> bool {
    |before: Value, after: Value| call_ensures(transform, (&before,), after)
}

/// `item` is appended to the target.
pub open spec fn appends<Item>(item: Item) -> spec_fn(Vec<Item>, Vec<Item>) -> bool {
    |before: Vec<Item>, after: Vec<Item>| after@ == before@.push(item)
}

/// Every element that carries the identity `id` leaves the target; the
/// others stay, in their order.
pub open spec fn removes_id<Item: VecItem>(id: Item::Id) -> spec_fn(Vec<Item>, Vec<Item>) -> bool {
    |before: Vec<Item>, after: Vec<Item>| after@ == before@.filter(|item: Item| item.id() != id)
}

/// `item` is stored in the target under `id`, in place of what was there.
pub open spec fn inserts<Item: MapItem>(id: Item::Id, item: Item) -> spec_fn(
    HashMap<Item::Id, Item>,
    HashMap<Item::Id, Item>,
) -> bool {
    |before: HashMap<Item::Id, Item>, after: HashMap<Item::Id, Item>|
        after@ == before@.insert(id, item)
}

/// A default value is stored in the target under `id`, unless a value is
/// stored there already.
pub open spec fn inserts_default<Item: MapItem + Default>(id: Item::Id) -> spec_fn(
    HashMap<Item::Id, Item>,
    HashMap<Item::Id, Item>,
) -> bool {
    |before: HashMap<Item::Id, Item>, after: HashMap<Item::Id, Item>|
        if before@.contains_key(id) {
            after@ == before@
        } else {
            exists|item: Item| #[trigger]
                Item::default.ensures((), item) && after@ == before@.insert(id, item)
        }
}

/// What is stored in the target under `id`, if anything, leaves it.
pub open spec fn removes_key<Item: MapItem>(id: Item::Id) -> spec_fn(
    HashMap<Item::Id, Item>,
    HashMap<Item::Id, Item>,
) -> bool {
    |before: HashMap<Item::Id, Item>, after: HashMap<Item::Id, Item>| after@ == before@.remove(id)
}

/// Overwriting the target with a value.
pub(crate) struct Overwrite<Value> {
    pub value: Value,
}

impl<Value> Edit<Value> for Overwrite<Value> {
    open spec fn relation(&self) -> spec_fn(Value, Value) -> bool {
        overwrites(self.value)
    }

    fn apply(self, target: &mut Value) {
        *target = self.value;
    }
}

/// Replacing the target by what a closure makes of it.
#[verifier::reject_recursive_types(Value)]
pub(crate) struct Transform<Value, F: Fn(&Value) -> Value> {
    transform: F,
    marker: PhantomData<Value>,
}

impl<Value, F: Fn(&Value) -> Value> Transform<Value, F> {
    /// The transform accepts every target.
    #[verifier::type_invariant]
    spec fn total(self) -> bool {
        forall|target: Value| call_requires(self.transform, (&target,))
    }

    pub(crate) closed spec fn transform(self) -> F {
        self.transform
    }

    pub(crate) fn new(transform: F) -> (edit: Self)
        requires
            forall|target: Value| call_requires(transform, (&target,)),
        ensures
            edit.transform() == transform,
    {
        Transform { transform, marker: PhantomData }
    }
}

impl<Value, F: Fn(&Value) -> Value> Edit<Value> for Transform<Value, F> {
    open spec fn relation(&self) -> spec_fn(Value, Value) -> bool {
        transforms(self.transform())
    }

    fn apply(self, target: &mut Value) {
        proof {
            use_type_invariant(&self);
        }
        let transformed = (self.transform)(&*target);
        *target = transformed;
    }
}

/// Removing the elements of a `Vec` that carry an identity.
pub(crate) struct RemoveById<Item: VecItem> {
    pub id: Item::Id,
}

impl<Item: VecItem> Edit<Vec<Item>> for RemoveById<Item> {
    open spec fn relation(&self) -> spec_fn(Vec<Item>, Vec<Item>) -> bool {
        removes_id::<Item>(self.id)
    }

    fn apply(self, target: &mut Vec<Item>) {
        proof {
            Item::id_equality();
        }
        let ghost stays = |item: Item| item.id() != self.id;
        let mut all: Vec<Item> = Vec::new();
        core::mem::swap(target, &mut all);
        let ghost items = all@;
        proof {
            assert(items.take(0) =~= Seq::empty());
            reveal_with_fuel(Seq::filter, 1);
        }
        for item in it: all
            invariant
                <Item::Id as PartialEqSpec>::obeys_eq_spec(),
                forall|a: Item::Id, b: Item::Id| #[trigger] a.eq_spec(&b) <==> a == b,
                stays == |item: Item| item.id() != self.id,
                it.seq() == items,
                target@ == items.take(it.index()).filter(stays),
        {
            proof {
                assert(items.take(it.index() + 1) =~= items.take(it.index()).push(item));
                items.take(it.index()).lemma_filter_push(item, stays);
            }
            if item.get_id() != self.id {
                target.push(item);
            }
        }
        proof {
            assert(items.take(items.len() as int) =~= items);
        }
    }
}

/// Appending an item to a `Vec`.
pub(crate) struct Push<Item> {
    pub item: Item,
}

impl<Item> Edit<Vec<Item>> for Push<Item> {
    open spec fn relation(&self) -> spec_fn(Vec<Item>, Vec<Item>) -> bool {
        appends(self.item)
    }

    fn apply(self, target: &mut Vec<Item>) {
        target.push(self.item);
    }
}

/// Storing an item under a key of a `HashMap`.
pub(crate) struct Insert<Item: MapItem> {
    pub id: Item::Id,
    pub item: Item,
}

impl<Item: MapItem> Edit<HashMap<Item::Id, Item>> for Insert<Item> {
    open spec fn relation(&self) -> spec_fn(
        HashMap<Item::Id, Item>,
        HashMap<Item::Id, Item>,
    ) -> bool {
        inserts(self.id, self.item)
    }

    fn apply(self, target: &mut HashMap<Item::Id, Item>) {
        proof {
            Item::id_is_a_key();
        }
        target.insert(self.id, self.item);
    }
}

/// Storing a default item under a key of a `HashMap` that lacks it.
pub(crate) struct InsertDefault<Item: MapItem> {
    pub id: Item::Id,
}

impl<Item: MapItem + Default> Edit<HashMap<Item::Id, Item>> for InsertDefault<Item> {
    open spec fn relation(&self) -> spec_fn(
        HashMap<Item::Id, Item>,
        HashMap<Item::Id, Item>,
    ) -> bool {
        inserts_default::<Item>(self.id)
    }

    fn apply(self, target: &mut HashMap<Item::Id, Item>) {
        proof {
            Item::id_is_a_key();
        }
        if !target.contains_key(&self.id) {
            target.insert(self.id, Item::default());
        }
    }
}

/// Removing a key from a `HashMap`.
pub(crate) struct RemoveKey<Item: MapItem> {
    pub id: Item::Id,
}

impl<Item: MapItem> Edit<HashMap<Item::Id, Item>> for RemoveKey<Item> {
    open spec fn relation(&self) -> spec_fn(
        HashMap<Item::Id, Item>,
        HashMap<Item::Id, Item>,
    ) -> bool {
        removes_key::<Item>(self.id)
    }

    fn apply(self, target: &mut HashMap<Item::Id, Item>) {
        proof {
            Item::id_is_a_key();
        }
        target.remove(&self.id);
    }
}

} // verus!
