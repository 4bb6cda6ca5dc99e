//! A checked table from opaque `u64` handles to values.
//!
//! Handles cross the FFI boundary into game code this runtime does not control, so a handle
//! is a small sequential id rather than an address: a stale, foreign or garbage handle is a
//! failed lookup, never a dereference. `0` means "no handle" throughout the GDK ABI, so ids
//! start at `1` and `0` never resolves.
use vstd::prelude::*;
use std::collections::HashMap;

verus! {

broadcast use vstd::std_specs::hash::group_hash_axioms;

/// What looking `handle` up in `entries` yields: nothing for the reserved `0` or for a
/// handle that is not live, otherwise the value it was created with.
pub open spec fn handle_lookup<T>(entries: Map<u64, T>, handle: u64) -> Option<T> {
    if handle != 0 && entries.contains_key(handle) {
        Some(entries[handle])
    } else {
        None
    }
}

/// A table of live handles and the id the next one will get.
pub struct HandleTable<T> {
    next: u64,
    entries: HashMap<u64, T>,
}

impl<T> View for HandleTable<T> {
    type V = Map<u64, T>;

    /// The live handles and what each one refers to.
    closed spec fn view(&self) -> Map<u64, T> {
        self.entries@
    }
}

impl<T> HandleTable<T> {
    /// The id the next `create` hands out.
    pub closed spec fn next_id(&self) -> u64 {
        self.next
    }

    /// Ids start at 1, and every live handle is below the next id, so a fresh id is never
    /// live and `0` never is.
    pub closed spec fn wf(&self) -> bool {
        &&& 1 <= self.next
        &&& forall|h: u64| #[trigger] self.entries@.contains_key(h) ==> 1 <= h < self.next
    }

    /// An empty table whose first handle will be `1`.
    pub fn new() -> (table: Self)
        ensures
            table.wf(),
            table@ == Map::<u64, T>::empty(),
            table.next_id() == 1,
    {
        HandleTable { next: 1, entries: HashMap::new() }
    }

    /// The id the next `create` will hand out.
    pub fn next_handle(&self) -> (id: u64)
        ensures
            id == self.next_id(),
    {
        self.next
    }

    /// Registers `value` under a fresh handle and returns the handle.
    ///
    /// The handle is nonzero, was not live before, and is larger than every handle this
    /// table has handed out so far.
    pub fn create(&mut self, value: T) -> (handle: u64)
        requires
            old(self).wf(),
            old(self).next_id() < u64::MAX,
        ensures
            final(self).wf(),
            handle == old(self).next_id(),
            handle != 0,
            !old(self)@.contains_key(handle),
            final(self)@ == old(self)@.insert(handle, value),
            final(self).next_id() == old(self).next_id() + 1,
    {
        let id = self.next;
        self.next = id + 1;
        self.entries.insert(id, value);
        id
    }

    /// Removes `handle`. The reserved `0`, and a handle that is not live, change nothing.
    pub fn close(&mut self, handle: u64)
        requires
            old(self).wf(),
        ensures
            final(self).wf(),
            final(self)@ == old(self)@.remove(handle),
            final(self).next_id() == old(self).next_id(),
    {
        if handle == 0 {
            assert(!self.entries@.contains_key(0));
            assert(self.entries@.remove(0) =~= self.entries@);
            return;
        }
        self.entries.remove(&handle);
    }

    /// Takes the value of a live handle out of the table, to be put back under the same
    /// handle once it has been worked on.
    pub fn take(&mut self, handle: u64) -> (value: T)
        requires
            old(self).wf(),
            handle_lookup(old(self)@, handle) is Some,
        ensures
            final(self).wf(),
            value == old(self)@[handle],
            1 <= handle < old(self).next_id(),
            final(self)@ == old(self)@.remove(handle),
            final(self).next_id() == old(self).next_id(),
    {
        match self.entries.remove(&handle) {
            Some(value) => value,
            None => vstd::pervasive::unreached(),
        }
    }

    /// Puts a value back under a handle this table issued and that is not live.
    pub fn put_back(&mut self, handle: u64, value: T)
        requires
            old(self).wf(),
            1 <= handle < old(self).next_id(),
        ensures
            final(self).wf(),
            final(self)@ == old(self)@.insert(handle, value),
            final(self).next_id() == old(self).next_id(),
    {
        self.entries.insert(handle, value);
    }

    /// Whether `handle` is live.
    pub fn contains(&self, handle: u64) -> (live: bool)
        ensures
            live == handle_lookup(self@, handle) is Some,
    {
        if handle == 0 {
            false
        } else {
            self.entries.contains_key(&handle)
        }
    }
}

impl<T: Clone> HandleTable<T> {
    /// A clone of the value `handle` refers to, or `None` for `0` and for a handle that is not
    /// live.
    pub fn get(&self, handle: u64) -> (found: Option<T>)
        ensures
            found is Some <==> handle_lookup(self@, handle) is Some,
            found is Some ==> cloned(handle_lookup(self@, handle)->0, found->0),
    {
        if handle == 0 {
            return None;
        }
        match self.entries.get(&handle) {
            Some(value) => Some(value.clone()),
            None => None,
        }
    }
}

/// A handle that was just created resolves to the value it was created with, and every other
/// handle resolves as it did before.
pub proof fn lemma_created_handle_resolves<T>(
    before: Map<u64, T>,
    after: Map<u64, T>,
    handle: u64,
    value: T,
    other: u64,
)
    requires
        handle != 0,
        after == before.insert(handle, value),
    ensures
        handle_lookup(after, handle) == Some(value),
        other != handle ==> handle_lookup(after, other) == handle_lookup(before, other),
{
}

/// A closed handle no longer resolves, and closing it leaves every other handle alone.
pub proof fn lemma_closed_handle_is_gone<T>(
    before: Map<u64, T>,
    after: Map<u64, T>,
    handle: u64,
    other: u64,
)
    requires
        after == before.remove(handle),
    ensures
        handle_lookup(after, handle) is None,
        other != handle ==> handle_lookup(after, other) == handle_lookup(before, other),
{
}

/// Two successive `create`s on the same table (as `XTaskQueueDuplicateHandle` makes) give
/// distinct handles, and closing the first leaves the second resolving to its own value.
pub proof fn lemma_duplicate_outlives_the_original<T>(before: Map<u64, T>, next: u64, first_value: T, second_value: T)
    requires
        1 <= next < u64::MAX,
        forall|h: u64| #[trigger] before.contains_key(h) ==> h < next,
    ensures
        ({
            let first = next;
            let second = (next + 1) as u64;
            let both = before.insert(first, first_value).insert(second, second_value);
            &&& first != second
            &&& handle_lookup(both, first) == Some(first_value)
            &&& handle_lookup(both, second) == Some(second_value)
            &&& handle_lookup(both.remove(first), first) is None
            &&& handle_lookup(both.remove(first), second) == Some(second_value)
        }),
{
}

/// Handles never repeat: every handle a table has handed out, live or closed, is below its
/// next id (`create` returns the next id and raises it by one, and nothing lowers it), so the
/// handle the next `create` returns differs from each of them, and from every live handle.
pub proof fn lemma_issued_handles_never_repeat<T>(table: HandleTable<T>, issued: u64, live: u64)
    requires
        table.wf(),
        issued < table.next_id(),
        table@.contains_key(live),
    ensures
        table.next_id() != issued,
        table.next_id() != live,
        table.next_id() != 0,
{
}

} // verus!
