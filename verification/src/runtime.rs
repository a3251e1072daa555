use vstd::prelude::*;
use std::collections::HashMap;

verus! {

broadcast use vstd::std_specs::hash::group_hash_axioms;

/// An identifier for a value in the runtime.
#[derive(Debug, Clone, Copy, Default, PartialEq, Eq, Hash, Structural)]
pub struct ValueId(pub usize);

/// A runtime holding dynamic values by identifier, and handing out fresh
/// identifiers.
#[derive(Debug)]
pub struct Runtime<V> {
    /// A map of the values themselves.
    values: HashMap<usize, V>,
    /// The ID of the next value to use.
    next_value_id: usize,
}

impl<V> Runtime<V> {
    /// The values held, by identifier.
    pub closed spec fn spec_values(&self) -> Map<usize, V> {
        self.values@
    }

    /// The identifier that will be handed out next.
    pub closed spec fn spec_next_id(&self) -> nat {
        self.next_value_id as nat
    }

    /// Creates a new instance of a runtime: no values, identifiers from zero.
    pub fn new() -> (r: Self)
        ensures
            r.spec_values() == Map::<usize, V>::empty(),
            r.spec_next_id() == 0,
    {
        Runtime { values: HashMap::new(), next_value_id: 0 }
    }

    /// Gets the next value ID and increments the internal count.
    pub fn new_value_id(&mut self) -> (id: ValueId)
        requires
            old(self).spec_next_id() < usize::MAX,
        ensures
            id.0 == old(self).spec_next_id(),
            final(self).spec_next_id() == old(self).spec_next_id() + 1,
            final(self).spec_values() == old(self).spec_values(),
    {
        let id = ValueId(self.next_value_id);
        self.next_value_id = self.next_value_id + 1;
        id
    }

    /// The identifier that will be handed out next.
    pub fn next_id(&self) -> (r: usize)
        ensures
            r == self.spec_next_id(),
    {
        self.next_value_id
    }

    /// Whether a value with the given ID exists.
    pub fn has_value(&self, id: ValueId) -> (r: bool)
        ensures
            r == self.spec_values().contains_key(id.0),
    {
        self.values.contains_key(&id.0)
    }

    /// Creates or updates a value within the runtime, depending on whether it
    /// already exists.
    pub fn create_value(&mut self, id: ValueId, value: V)
        ensures
            final(self).spec_values() == old(self).spec_values().insert(id.0, value),
            final(self).spec_values() == apply_op(old(self).spec_values(), RuntimeOp::Create(id.0, value)),
            final(self).spec_next_id() == old(self).spec_next_id(),
    {
        self.values.insert(id.0, value);
    }

    /// Gets a value from within the runtime. The value must exist.
    pub fn get_value(&self, id: ValueId) -> (r: &V)
        requires
            self.spec_values().contains_key(id.0),
        ensures
            *r == self.spec_values()[id.0],
    {
        self.values.get(&id.0).unwrap()
    }

    /// Looks a value up: the value with the given ID, or `None` when there
    /// is none (where reading it would fail).
    pub fn try_get_value(&self, id: ValueId) -> (r: Option<&V>)
        ensures
            r == (if self.spec_values().contains_key(id.0) {
                Some(&self.spec_values()[id.0])
            } else {
                None
            }),
    {
        self.values.get(&id.0)
    }

    /// Sets the value with a given ID. The value must exist.
    pub fn set_value(&mut self, id: ValueId, value: V)
        requires
            old(self).spec_values().contains_key(id.0),
        ensures
            final(self).spec_values() == old(self).spec_values().insert(id.0, value),
            final(self).spec_values() == apply_op(old(self).spec_values(), RuntimeOp::Update(id.0, value)),
            final(self).spec_next_id() == old(self).spec_next_id(),
    {
        self.values.insert(id.0, value);
    }

    /// Removes a value from the runtime. This should only happen when the
    /// value's creation context is destroyed, else future attempts to access
    /// the value will fail.
    pub fn remove_value(&mut self, id: ValueId)
        ensures
            final(self).spec_values() == old(self).spec_values().remove(id.0),
            final(self).spec_values() == apply_op(old(self).spec_values(), RuntimeOp::Remove(id.0)),
            final(self).spec_next_id() == old(self).spec_next_id(),
    {
        self.values.remove(&id.0);
    }
}

impl<V> Default for Runtime<V> {
    fn default() -> (r: Self)
        ensures
            r.spec_values() == Map::<usize, V>::empty(),
            r.spec_next_id() == 0,
    {
        Runtime::new()
    }
}

/// Reading a value gives back what was last written to it, and writing one
/// value leaves every other value as it was.
pub proof fn lemma_read_after_write<V>(values: Map<usize, V>, id: usize, other: usize, value: V)
    requires
        other != id,
    ensures
        values.insert(id, value).contains_key(id),
        values.insert(id, value)[id] == value,
        values.insert(id, value).contains_key(other) == values.contains_key(other),
        values.contains_key(other) ==> values.insert(id, value)[other] == values[other],
{
}

/// A removed value is gone, and the others stay.
pub proof fn lemma_remove_frames<V>(values: Map<usize, V>, id: usize, other: usize)
    requires
        other != id,
    ensures
        !values.remove(id).contains_key(id),
        values.remove(id).contains_key(other) == values.contains_key(other),
        values.contains_key(other) ==> values.remove(id)[other] == values[other],
{
}

/// Identifiers handed out by the runtime are fresh: while every held value
/// was created under an identifier handed out earlier, the next identifier
/// names no value, and creating a value under it keeps that so.
pub proof fn lemma_next_id_fresh<V>(values: Map<usize, V>, next: nat, value: V)
    requires
        next < usize::MAX,
        forall|k: usize| values.contains_key(k) ==> k < next,
    ensures
        !values.contains_key(next as usize),
        forall|k: usize| #[trigger] values.insert(next as usize, value).contains_key(k) ==> k < next + 1,
{
}

/// A change made to a runtime's values, as `create_value`, `set_value` and
/// `remove_value` make them.
pub enum RuntimeOp<V> {
    /// A value is created, or replaced, under an identifier.
    Create(usize, V),
    /// The existing value under an identifier is set.
    Update(usize, V),
    /// The value under an identifier is removed.
    Remove(usize),
}

/// The values after one change: setting a value that does not exist is
/// refused, and changes nothing.
pub open spec fn apply_op<V>(values: Map<usize, V>, op: RuntimeOp<V>) -> Map<usize, V> {
    match op {
        RuntimeOp::Create(id, v) => values.insert(id, v),
        RuntimeOp::Update(id, v) => if values.contains_key(id) { values.insert(id, v) } else { values },
        RuntimeOp::Remove(id) => values.remove(id),
    }
}

/// The values of a fresh runtime after these changes, in order.
pub open spec fn apply_ops<V>(ops: Seq<RuntimeOp<V>>) -> Map<usize, V>
    decreases ops.len(),
{
    if ops.len() == 0 {
        Map::empty()
    } else {
        apply_op(apply_ops(ops.drop_last()), ops.last())
    }
}

/// A value is held under `id` after these changes: it was created under
/// `id`, and not removed since.
pub open spec fn created_not_removed<V>(ops: Seq<RuntimeOp<V>>, id: usize) -> bool {
    exists|k: int|
        0 <= k < ops.len() && (#[trigger] ops[k] matches RuntimeOp::Create(i, _) && i == id)
            && forall|j: int| k < j < ops.len() ==> !(#[trigger] ops[j] matches RuntimeOp::Remove(i) && i == id)
}

/// Whatever changes a fresh runtime goes through, it holds a value under an
/// identifier exactly when a value was created under it and not removed
/// since: reading any other identifier fails.
pub proof fn lemma_held_iff_created<V>(ops: Seq<RuntimeOp<V>>, id: usize)
    ensures
        apply_ops(ops).contains_key(id) <==> created_not_removed(ops, id),
    decreases ops.len(),
{
    if ops.len() > 0 {
        let prev = ops.drop_last();
        lemma_held_iff_created(prev, id);
        let last = ops.last();
        let n = ops.len() - 1;
        if created_not_removed(prev, id) {
            let k = choose|k: int|
                0 <= k < prev.len() && (#[trigger] prev[k] matches RuntimeOp::Create(i, _) && i == id)
                    && forall|j: int| k < j < prev.len() ==> !(#[trigger] prev[j] matches RuntimeOp::Remove(i) && i == id);
            assert(ops[k] == prev[k]);
            if !(last matches RuntimeOp::Remove(i) && i == id) {
                assert forall|j: int| k < j < ops.len() implies !(#[trigger] ops[j] matches RuntimeOp::Remove(i) && i == id) by {
                    if j < n {
                        assert(ops[j] == prev[j]);
                    }
                }
            }
        }
        if created_not_removed(ops, id) {
            let k = choose|k: int|
                0 <= k < ops.len() && (#[trigger] ops[k] matches RuntimeOp::Create(i, _) && i == id)
                    && forall|j: int| k < j < ops.len() ==> !(#[trigger] ops[j] matches RuntimeOp::Remove(i) && i == id);
            if k < n {
                assert(prev[k] == ops[k]);
                assert forall|j: int| k < j < prev.len() implies !(#[trigger] prev[j] matches RuntimeOp::Remove(i) && i == id) by {
                    assert(prev[j] == ops[j]);
                }
                assert(created_not_removed(prev, id));
            }
        } else {
            if last matches RuntimeOp::Create(i, _) && i == id {
                assert(ops[n] == last);
                assert(created_not_removed(ops, id));
            }
        }
    }
}

/// Reading a runtime's value (`get_value`, or `set_value`) is possible
/// exactly when the value was created under that identifier and not
/// removed since: for a runtime that went from fresh through the changes
/// `ops`, every other read fails (`try_get_value` gives `None`, and
/// `get_value` and `set_value` are refused, where the reads of a value that
/// does not exist panic).
pub proof fn lemma_read_needs_creation<V>(rt: Runtime<V>, ops: Seq<RuntimeOp<V>>, id: ValueId)
    requires
        rt.spec_values() == apply_ops(ops),
    ensures
        rt.spec_values().contains_key(id.0) <==> created_not_removed(ops, id.0),
{
    lemma_held_iff_created(ops, id.0);
}

} // verus!
