//! Fixed-capacity handle registry.
//!
//! A [`Cache`] owns up to `capacity` resources and hands out the index of the
//! slot that holds a resource as its handle. The number of slots is fixed when
//! the registry is made: it never grows and never overwrites a live slot.

use vstd::prelude::*;

verus! {

/// The largest number of slots a registry can have: every slot index must be
/// expressible as a `u32` handle.
pub const MAX_CAPACITY: usize = 0xffff_ffff;

/// The capacity of a registry made by `Default::default`.
pub const DEFAULT_CAPACITY: usize = 1024;

/// The `k`-th slot visited by a search that starts at `cursor` in a registry
/// of `len` slots and wraps around after the last one.
pub open spec fn probe(len: int, cursor: int, k: int) -> int {
    if cursor + k < len {
        cursor + k
    } else {
        cursor + k - len
    }
}

/// How many slots a search that starts at `cursor` visits before it reaches
/// slot `h`.
pub open spec fn distance(len: int, cursor: int, h: int) -> int {
    if h >= cursor {
        h - cursor
    } else {
        h - cursor + len
    }
}

/// Slot `h` exists and holds a resource.
pub open spec fn is_live<T>(slots: Seq<Option<T>>, h: int) -> bool {
    0 <= h < slots.len() && slots[h] is Some
}

/// Every slot holds a resource.
pub open spec fn is_full<T>(slots: Seq<Option<T>>) -> bool {
    forall|i: int| 0 <= i < slots.len() ==> (#[trigger] slots[i]) is Some
}

/// No slot holds a resource.
pub open spec fn is_vacant<T>(slots: Seq<Option<T>>) -> bool {
    forall|i: int| 0 <= i < slots.len() ==> (#[trigger] slots[i]) is None
}

/// Slot `h` is the first empty slot that a wrapping search from `cursor`
/// comes to.
pub open spec fn is_next_free<T>(slots: Seq<Option<T>>, cursor: int, h: int) -> bool {
    &&& 0 <= h < slots.len()
    &&& slots[h] is None
    &&& forall|k: int|
        0 <= k < distance(slots.len() as int, cursor, h) ==> (#[trigger] slots[probe(
            slots.len() as int,
            cursor,
            k,
        )]) is Some
}

/// The number of slots that hold a resource.
pub open spec fn live_count<T>(slots: Seq<Option<T>>) -> nat
    decreases slots.len(),
{
    if slots.len() == 0 {
        0
    } else {
        live_count(slots.drop_last()) + if slots.last() is Some {
            1nat
        } else {
            0nat
        }
    }
}

/// The handle that a store returns for a registry with these slots and this
/// cursor: the first empty slot in search order, or `None` where every slot
/// is taken.
pub open spec fn next_handle<T>(slots: Seq<Option<T>>, cursor: int) -> Option<u32> {
    if exists|h: u32| is_next_free(slots, cursor, h as int) {
        Some(choose|h: u32| is_next_free(slots, cursor, h as int))
    } else {
        None
    }
}

/// What one `store` of `data` does: from `slots` and `cursor` it gives
/// `handle` and leaves `slots_after` and `cursor_after`.
pub open spec fn store_spec<T>(
    slots: Seq<Option<T>>,
    cursor: int,
    data: T,
    handle: Option<u32>,
    slots_after: Seq<Option<T>>,
    cursor_after: int,
) -> bool {
    match handle {
        None => is_full(slots) && slots_after == slots && cursor_after == cursor,
        Some(h) => {
            &&& is_next_free(slots, cursor, h as int)
            &&& slots_after == slots.update(h as int, Some(data))
            &&& cursor_after == h
        },
    }
}

/// What `remove` of slot `idx` leaves of `slots`.
pub open spec fn remove_spec<T>(slots: Seq<Option<T>>, idx: int) -> Seq<Option<T>> {
    if 0 <= idx < slots.len() {
        slots.update(idx, None)
    } else {
        slots
    }
}

/// A run of `store` calls, one for each item of `data`, with no other call in
/// between: `states[i]` and `cursors[i]` are the registry before the `i`-th
/// call, `handles[i]` is what that call returned.
pub open spec fn is_store_run<T>(
    states: Seq<Seq<Option<T>>>,
    cursors: Seq<int>,
    data: Seq<T>,
    handles: Seq<Option<u32>>,
) -> bool {
    &&& states.len() == data.len() + 1
    &&& cursors.len() == data.len() + 1
    &&& handles.len() == data.len()
    &&& forall|i: int|
        0 <= i < data.len() ==> store_spec(
            states[i],
            cursors[i],
            data[i],
            #[trigger] handles[i],
            states[i + 1],
            cursors[i + 1],
        )
}

/// A search finds one slot at most: two slots that are both the first empty
/// one in search order are the same slot.
pub proof fn lemma_next_free_unique<T>(slots: Seq<Option<T>>, cursor: int, h1: int, h2: int)
    requires
        0 <= cursor < slots.len(),
        is_next_free(slots, cursor, h1),
        is_next_free(slots, cursor, h2),
    ensures
        h1 == h2,
{
    let len = slots.len() as int;
    let d1 = distance(len, cursor, h1);
    let d2 = distance(len, cursor, h2);
    assert(probe(len, cursor, d1) == h1);
    assert(probe(len, cursor, d2) == h2);
    if d1 < d2 {
        assert(slots[probe(len, cursor, d1)] is Some);
    } else if d2 < d1 {
        assert(slots[probe(len, cursor, d2)] is Some);
    }
}

/// `next_handle` is the handle of `store_spec`: a store returns it and
/// nothing else.
pub proof fn lemma_next_handle<T>(
    slots: Seq<Option<T>>,
    cursor: int,
    data: T,
    handle: Option<u32>,
    slots_after: Seq<Option<T>>,
    cursor_after: int,
)
    requires
        0 <= cursor < slots.len() || slots.len() == 0,
        store_spec(slots, cursor, data, handle, slots_after, cursor_after),
    ensures
        handle == next_handle(slots, cursor),
{
    match handle {
        Some(h) => {
            let chosen = choose|c: u32| is_next_free(slots, cursor, c as int);
            lemma_next_free_unique(slots, cursor, h as int, chosen as int);
        },
        None => {
            if exists|h: u32| is_next_free(slots, cursor, h as int) {
                let h = choose|h: u32| is_next_free(slots, cursor, h as int);
                assert(slots[h as int] is None);
            }
        },
    }
}

/// Writing `value` into slot `i` changes the number of live slots by what the
/// slot gains or loses.
pub proof fn lemma_live_count_update<T>(slots: Seq<Option<T>>, i: int, value: Option<T>)
    requires
        0 <= i < slots.len(),
    ensures
        live_count(slots.update(i, value)) + (if slots[i] is Some {
            1nat
        } else {
            0nat
        }) == live_count(slots) + (if value is Some {
            1nat
        } else {
            0nat
        }),
    decreases slots.len(),
{
    let after = slots.update(i, value);
    if i == slots.len() - 1 {
        assert(after.drop_last() == slots.drop_last());
    } else {
        assert(after.drop_last() == slots.drop_last().update(i, value));
        lemma_live_count_update(slots.drop_last(), i, value);
    }
}

/// The live slots are never more than the slots; they are all of them exactly
/// in a full registry, and none exactly in a vacant one.
pub proof fn lemma_live_count_bounds<T>(slots: Seq<Option<T>>)
    ensures
        live_count(slots) <= slots.len(),
        live_count(slots) == slots.len() <==> is_full(slots),
        live_count(slots) == 0 <==> is_vacant(slots),
    decreases slots.len(),
{
    if slots.len() > 0 {
        let front = slots.drop_last();
        lemma_live_count_bounds(front);
        assert(forall|i: int| 0 <= i < front.len() ==> front[i] == slots[i]);
        if is_full(slots) {
            assert(is_full(front));
        }
        if is_full(front) && slots.last() is Some {
            assert(is_full(slots));
        }
        if is_vacant(slots) {
            assert(is_vacant(front));
        }
        if is_vacant(front) && slots.last() is None {
            assert(is_vacant(slots));
        }
    }
}

/// A `store` that succeeds adds exactly one live slot and keeps the number of
/// slots; one that fails changes nothing.
pub proof fn lemma_store_counts<T>(
    slots: Seq<Option<T>>,
    cursor: int,
    data: T,
    handle: Option<u32>,
    slots_after: Seq<Option<T>>,
    cursor_after: int,
)
    requires
        store_spec(slots, cursor, data, handle, slots_after, cursor_after),
    ensures
        slots_after.len() == slots.len(),
        live_count(slots_after) == live_count(slots) + (if handle is Some {
            1nat
        } else {
            0nat
        }),
{
    if let Some(h) = handle {
        lemma_live_count_update(slots, h as int, Some(data));
    }
}

/// Capacity is a hard bound: `n` stores in a row that all succeed in a
/// registry of `n` slots leave it full, so that the store after them finds
/// no capacity. (Such a run can only start from a vacant registry.)
pub proof fn lemma_capacity_exhausted<T>(
    states: Seq<Seq<Option<T>>>,
    cursors: Seq<int>,
    data: Seq<T>,
    handles: Seq<Option<u32>>,
    next_data: T,
    next_handle: Option<u32>,
    next_state: Seq<Option<T>>,
    next_cursor: int,
)
    requires
        is_store_run(states, cursors, data, handles),
        data.len() == states[0].len(),
        forall|i: int| 0 <= i < handles.len() ==> (#[trigger] handles[i]) is Some,
        store_spec(
            states.last(),
            cursors.last(),
            next_data,
            next_handle,
            next_state,
            next_cursor,
        ),
    ensures
        is_vacant(states[0]),
        is_full(states.last()),
        next_handle is None,
        next_state == states.last(),
{
    lemma_store_run_counts(states, cursors, data, handles, data.len() as int);
    lemma_live_count_bounds(states[0]);
    lemma_live_count_bounds(states.last());
}

/// After the first `k` calls of a run of stores that all succeed, the registry
/// has its slots still and `k` more live ones than at the start.
pub proof fn lemma_store_run_counts<T>(
    states: Seq<Seq<Option<T>>>,
    cursors: Seq<int>,
    data: Seq<T>,
    handles: Seq<Option<u32>>,
    k: int,
)
    requires
        is_store_run(states, cursors, data, handles),
        forall|i: int| 0 <= i < handles.len() ==> (#[trigger] handles[i]) is Some,
        0 <= k <= data.len(),
    ensures
        states[k].len() == states[0].len(),
        live_count(states[k]) == live_count(states[0]) + k,
    decreases k,
{
    if k > 0 {
        lemma_store_run_counts(states, cursors, data, handles, k - 1);
        assert(handles[k - 1] is Some);
        lemma_store_counts(
            states[k - 1],
            cursors[k - 1],
            data[k - 1],
            handles[k - 1],
            states[k],
            cursors[k],
        );
    }
}

/// A single `remove` of an existing slot makes room: the next store succeeds,
/// and where the registry was full before, it takes the slot just emptied.
pub proof fn lemma_store_after_remove<T>(
    slots: Seq<Option<T>>,
    idx: int,
    cursor: int,
    data: T,
    handle: Option<u32>,
    slots_after: Seq<Option<T>>,
    cursor_after: int,
)
    requires
        0 <= idx < slots.len(),
        store_spec(remove_spec(slots, idx), cursor, data, handle, slots_after, cursor_after),
    ensures
        handle is Some,
        is_full(slots) ==> handle == Some(idx as u32) && slots_after == slots.update(
            idx,
            Some(data),
        ),
{
    let emptied = remove_spec(slots, idx);
    assert(emptied[idx] is None);
    if is_full(slots) {
        let h = handle->0 as int;
        if h != idx {
            assert(emptied[h] == slots[h]);
        }
        assert(slots_after =~= slots.update(idx, Some(data)));
    }
}

/// Handles are unique among live resources: a store that succeeds returns a
/// handle that no live resource had, the handle resolves to the resource just
/// stored (also where the slot held another one before a `remove`), and
/// every other slot keeps what it held.
pub proof fn lemma_handle_unique<T>(
    slots: Seq<Option<T>>,
    cursor: int,
    data: T,
    handle: u32,
    slots_after: Seq<Option<T>>,
    cursor_after: int,
)
    requires
        store_spec(slots, cursor, data, Some(handle), slots_after, cursor_after),
    ensures
        !is_live(slots, handle as int),
        is_live(slots_after, handle as int),
        slots_after[handle as int] == Some(data),
        forall|other: int|
            0 <= other < slots.len() && other != handle ==> #[trigger] slots_after[other]
                == slots[other],
{
}

/// A live resource is never evicted: it stays in its slot through every store,
/// whether that store succeeds or not, and through the removal of any other
/// slot. Only the removal of its own slot ends it.
pub proof fn lemma_never_evicted<T>(
    slots: Seq<Option<T>>,
    h: int,
    cursor: int,
    data: T,
    handle: Option<u32>,
    slots_after: Seq<Option<T>>,
    cursor_after: int,
    idx: int,
)
    requires
        is_live(slots, h),
        store_spec(slots, cursor, data, handle, slots_after, cursor_after),
    ensures
        is_live(slots_after, h),
        slots_after[h] == slots[h],
        handle matches Some(taken) ==> taken != h,
        idx != h ==> is_live(remove_spec(slots, idx), h) && remove_spec(slots, idx)[h] == slots[h],
        !is_live(remove_spec(slots, h), h),
{
}

/// A registry of at most `capacity` resources, addressed by slot index.
pub struct Cache<T> {
    storage: Vec<Option<T>>,
    idx: usize,
}

impl<T> Cache<T> {
    /// The slots of the registry, in handle order.
    pub closed spec fn view(&self) -> Seq<Option<T>> {
        self.storage@
    }

    /// The slot at which the next search for a free slot starts.
    pub closed spec fn cursor(&self) -> int {
        self.idx as int
    }

    /// The cursor points at a slot (or at 0 in a registry without slots), and
    /// every slot index fits a handle.
    #[verifier::type_invariant]
    pub closed spec fn wf(&self) -> bool {
        &&& self.storage@.len() <= MAX_CAPACITY
        &&& self.idx < self.storage@.len() || self.idx == 0
    }

    /// What `wf` says, over the view and the cursor.
    pub proof fn lemma_wf(&self)
        requires
            self.wf(),
        ensures
            self@.len() <= MAX_CAPACITY,
            0 <= self.cursor(),
            self.cursor() < self@.len() || self.cursor() == 0,
    {
    }

    /// A registry of `capacity` empty slots, with the cursor at slot 0.
    pub fn with_capacity(capacity: usize) -> (cache: Self)
        requires
            capacity <= MAX_CAPACITY,
        ensures
            cache@.len() == capacity,
            is_vacant(cache@),
            cache.cursor() == 0,
    {
        let mut storage: Vec<Option<T>> = Vec::new();
        let mut n: usize = 0;
        while n < capacity
            invariant
                n <= capacity,
                storage@.len() == n,
                is_vacant(storage@),
            decreases capacity - n,
        {
            storage.push(None);
            n += 1;
        }
        Cache { storage, idx: 0 }
    }

    /// Puts `data` into the first empty slot at or after the cursor, wrapping
    /// around the end, and returns that slot's index. The cursor moves to the
    /// slot taken. A registry without an empty slot is left as it is and
    /// `data` is dropped.
    pub fn store(&mut self, data: T) -> (handle: Option<u32>)
        ensures
            store_spec(
                old(self)@,
                old(self).cursor(),
                data,
                handle,
                final(self)@,
                final(self).cursor(),
            ),
            handle is None <==> is_full(old(self)@),
            handle == next_handle(old(self)@, old(self).cursor()),
    {
        proof {
            use_type_invariant(&*self);
        }
        let len = self.storage.len();
        let start = self.idx;
        let mut idx: usize = start;
        let mut seen: usize = 0;
        while seen < len
            invariant
                len == self.storage@.len(),
                len <= MAX_CAPACITY,
                start < len || start == 0,
                *self == *old(self),
                start == self.idx,
                seen <= len,
                seen < len ==> idx == probe(len as int, start as int, seen as int),
                forall|k: int|
                    0 <= k < seen ==> (#[trigger] self.storage@[probe(
                        len as int,
                        start as int,
                        k,
                    )]) is Some,
            decreases len - seen,
        {
            if self.storage[idx].is_none() {
                assert(distance(len as int, start as int, idx as int) == seen);
                proof {
                    lemma_next_handle(
                        self.storage@,
                        start as int,
                        data,
                        Some(idx as u32),
                        self.storage@.update(idx as int, Some(data)),
                        idx as int,
                    );
                }
                self.storage[idx] = Some(data);
                self.idx = idx;
                return Some(idx as u32);
            }
            seen += 1;
            idx += 1;
            if idx == len {
                idx = 0;
            }
        }
        assert forall|i: int| 0 <= i < len implies (#[trigger] self.storage@[i]) is Some by {
            let k = distance(len as int, start as int, i);
            assert(probe(len as int, start as int, k) == i);
        }
        proof {
            lemma_next_handle(
                self.storage@,
                start as int,
                data,
                None,
                self.storage@,
                start as int,
            );
        }
        None
    }

    /// Empties slot `idx` and drops what it held. An empty slot, or an index
    /// past the last slot, leaves the registry as it is.
    pub fn remove(&mut self, idx: usize)
        ensures
            final(self).cursor() == old(self).cursor(),
            final(self)@ == remove_spec(old(self)@, idx as int),
    {
        proof {
            use_type_invariant(&*self);
        }
        if idx < self.storage.len() {
            let _ = self.storage[idx].take();
        }
    }

    /// The resource in slot `idx`, if the slot exists and is occupied. What the
    /// caller writes through the reference is what the slot holds afterwards.
    pub fn get_mut(&mut self, idx: usize) -> (found: Option<&mut T>)
        ensures
            final(self).cursor() == old(self).cursor(),
            found is Some <==> is_live(old(self)@, idx as int),
            found is None ==> final(self)@ == old(self)@,
            found matches Some(resource) ==> {
                &&& Some(*resource) == old(self)@[idx as int]
                &&& final(self)@ == old(self)@.update(idx as int, Some(*final(resource)))
            },
    {
        proof {
            use_type_invariant(&*self);
        }
        if idx < self.storage.len() {
            self.storage[idx].as_mut()
        } else {
            None
        }
    }
}

impl<T> Default for Cache<T> {
    /// A registry of `DEFAULT_CAPACITY` empty slots.
    fn default() -> (cache: Self)
        ensures
            cache@.len() == DEFAULT_CAPACITY,
            is_vacant(cache@),
            cache.cursor() == 0,
    {
        Cache::with_capacity(DEFAULT_CAPACITY)
    }
}

impl<T> Cache<T> {
    /// Slot `idx`, which must exist.
    pub fn index(&self, idx: usize) -> (slot: &Option<T>)
        requires
            idx < self@.len(),
        ensures
            *slot == self@[idx as int],
    {
        &self.storage[idx]
    }

    /// Slot `idx`, which must exist, to read and to write. What the caller
    /// leaves in the slot is what the registry holds there afterwards.
    pub fn index_mut(&mut self, idx: usize) -> (slot: &mut Option<T>)
        requires
            idx < old(self)@.len(),
        ensures
            final(self).cursor() == old(self).cursor(),
            *slot == old(self)@[idx as int],
            final(self)@ == old(self)@.update(idx as int, *final(slot)),
    {
        proof {
            use_type_invariant(&*self);
        }
        &mut self.storage[idx]
    }
}

} // verus!
