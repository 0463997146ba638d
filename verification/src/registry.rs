//! Handle-indexed storage.
//!
//! A [`Registry`] keeps its values in the order in which they were added and
//! never moves or drops one, so the position of a value is a name for it that
//! stays good for as long as the registry lives. A [`Handle`] is that name.

use vstd::prelude::*;

verus! {

/// Names one slot of a [`Registry`].
///
/// Handles are plain values: they can be copied, stored in components and in
/// queued commands, and compared. A handle says nothing about which registry
/// it belongs to; the registry that issued it is the one to resolve it.
#[derive(Clone, Copy, Debug, PartialEq, Eq, Structural)]
pub struct Handle {
    index: usize,
}

impl View for Handle {
    type V = nat;

    /// The position of the slot that the handle names.
    closed spec fn view(&self) -> nat {
        self.index as nat
    }
}

impl Handle {
    /// The handle of the slot at `index`.
    pub fn from_index(index: usize) -> (handle: Handle)
        ensures
            handle@ == index,
    {
        Handle { index }
    }

    /// The position of the slot that the handle names.
    pub fn index(&self) -> (index: usize)
        ensures
            index == self@,
    {
        self.index
    }
}

/// Two handles are the same handle exactly when they name the same slot.
pub proof fn lemma_handle_is_its_index(a: Handle, b: Handle)
    ensures
        (a == b) <==> (a@ == b@),
{
}

/// Growable store of values of one kind, each reached through the [`Handle`]
/// that [`Registry::add`] returned for it.
pub struct Registry<T> {
    items: Vec<T>,
}

impl<T> View for Registry<T> {
    type V = Seq<T>;

    /// The stored values, oldest first.
    closed spec fn view(&self) -> Seq<T> {
        self.items@
    }
}

impl<T> Registry<T> {
    /// Whether `handle` names a slot of this registry.
    pub open spec fn has(&self, handle: Handle) -> bool {
        handle@ < self@.len()
    }

    /// The value that `handle` names.
    pub open spec fn value(&self, handle: Handle) -> T
        recommends
            self.has(handle),
    {
        self@[handle@ as int]
    }

    /// An empty registry.
    pub fn new() -> (registry: Self)
        ensures
            registry@ == Seq::<T>::empty(),
    {
        Registry { items: Vec::new() }
    }

    /// A registry holds no more values than can be counted.
    pub proof fn lemma_len_fits(&self)
        ensures
            self@.len() <= usize::MAX,
    {
        assert(self.items@.len() == self.items.len());
    }

    /// How many values are stored.
    pub fn len(&self) -> (len: usize)
        ensures
            len == self@.len(),
    {
        self.items.len()
    }

    /// Whether `handle` names a slot of this registry.
    pub fn contains(&self, handle: Handle) -> (found: bool)
        ensures
            found == self.has(handle),
    {
        handle.index < self.items.len()
    }

    /// Stores `value` behind every value stored so far and returns its handle.
    ///
    /// Nothing that was stored before moves: every handle that was good before
    /// the call is good after it and names the same value.
    pub fn add(&mut self, value: T) -> (handle: Handle)
        ensures
            final(self)@ == old(self)@.push(value),
            handle@ == old(self)@.len(),
            final(self).has(handle),
            final(self).value(handle) == value,
            forall|earlier: Handle|
                old(self).has(earlier) ==> final(self).has(earlier) && final(self).value(earlier)
                    == #[trigger] old(self).value(earlier),
    {
        let index = self.items.len();
        self.items.push(value);
        Handle { index }
    }

    /// The value that `handle` names.
    pub fn get(&self, handle: Handle) -> (value: &T)
        requires
            self.has(handle),
        ensures
            *value == self.value(handle),
    {
        &self.items[handle.index]
    }

    /// The value that `handle` names, for changing it in place.
    ///
    /// Whatever the caller leaves behind the returned reference becomes the
    /// value of that slot; every other slot keeps its value.
    pub fn get_mut(&mut self, handle: Handle) -> (value: &mut T)
        requires
            old(self).has(handle),
        ensures
            *value == old(self).value(handle),
            final(self)@ == old(self)@.update(handle@ as int, *final(value)),
    {
        &mut self.items[handle.index]
    }
}

impl<T> Default for Registry<T> {
    fn default() -> (registry: Registry<T>)
        ensures
            registry@ == Seq::<T>::empty(),
    {
        Registry::new()
    }
}

/// What is stored once each of `values` has been added in turn to a registry
/// that held `stored`.
pub open spec fn after_adding<T>(stored: Seq<T>, values: Seq<T>) -> Seq<T>
    decreases values.len(),
{
    if values.len() == 0 {
        stored
    } else {
        after_adding(stored, values.drop_last()).push(values.last())
    }
}

/// Handles outlive growth: a handle that names a value keeps naming that same
/// value however many values are added afterwards.
pub proof fn lemma_handles_survive_adding<T>(stored: Seq<T>, values: Seq<T>, handle: Handle)
    requires
        handle@ < stored.len(),
    ensures
        handle@ < after_adding(stored, values).len(),
        after_adding(stored, values)[handle@ as int] == stored[handle@ as int],
    decreases values.len(),
{
    if values.len() > 0 {
        lemma_handles_survive_adding(stored, values.drop_last(), handle);
    }
}

/// Each value that is added gets the next handle: the value added as number
/// `turn` is stored right behind what was stored before and the values added
/// before it.
pub proof fn lemma_added_values_are_stored<T>(stored: Seq<T>, values: Seq<T>, turn: int)
    requires
        0 <= turn < values.len(),
    ensures
        after_adding(stored, values).len() == stored.len() + values.len(),
        after_adding(stored, values)[stored.len() + turn] == values[turn],
    decreases values.len(),
{
    lemma_adding_grows(stored, values.drop_last());
    if turn < values.len() - 1 {
        lemma_added_values_are_stored(stored, values.drop_last(), turn);
    }
}

/// Adding stores one value for each value added.
pub proof fn lemma_adding_grows<T>(stored: Seq<T>, values: Seq<T>)
    ensures
        after_adding(stored, values).len() == stored.len() + values.len(),
    decreases values.len(),
{
    if values.len() > 0 {
        lemma_adding_grows(stored, values.drop_last());
    }
}

} // verus!
