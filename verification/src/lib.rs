//! A bounded single-producer/single-consumer circular buffer.
//!
//! The buffer hands values from one writer to one reader through a
//! fixed-size backing store and two cursors. Every operation is
//! non-blocking: `push` and `pop` either transfer exactly one element or
//! report `Full` / `Empty` without touching the buffer. When the two
//! cursors coincide the buffer is either empty or full; a boundary tag
//! ([`LimitKind`]), written by whichever operation made the cursors
//! coincide, resolves the ambiguity, so every one of the `size` slots is
//! usable.
//!
//! The contracts describe the buffer through its view: the sequence of
//! pending elements in the order a consumer will pop them.

use vstd::arithmetic::div_mod::lemma_mod_self_0;
use vstd::arithmetic::div_mod::lemma_small_mod;
use vstd::prelude::*;

verus! {

/// Error returned by `pop` when the buffer holds nothing to read.
#[derive(Copy, Clone, Debug, PartialEq)]
pub enum LoadErrorKind {
    Empty,
}

/// Error returned by `push` when the buffer has no room left.
#[derive(Copy, Clone, Debug, PartialEq)]
pub enum StoreErrorKind {
    Full,
}

/// Boundary tag resolving the empty-versus-full ambiguity: it is
/// meaningful only while the write and read cursors coincide, and then
/// tells whether the operation that made them coincide emptied the
/// buffer or filled it.
#[derive(Copy, Clone, Debug, PartialEq, Eq)]
pub enum LimitKind {
    Empty,
    Full,
}

/// The cursor values the buffer invariant admits for a backing store of
/// `size` slots. A buffer of size zero pins both cursors to zero and the
/// tag to `Empty`; otherwise each cursor points at a slot.
pub open spec fn cursors_in_bounds(
    write_index: int,
    read_index: int,
    size: int,
    limit: LimitKind,
) -> bool {
    if size == 0 {
        write_index == 0 && read_index == 0 && limit == LimitKind::Empty
    } else {
        0 <= write_index < size && 0 <= read_index < size
    }
}

/// Number of elements pending between the cursors under the boundary-tag
/// discipline: coinciding cursors mean an empty buffer when `limit` is
/// `Empty` and a full one when it is `Full`; otherwise the distance from
/// the read cursor forward to the write cursor, wrapping at `size`.
pub open spec fn occupancy_of(
    write_index: int,
    read_index: int,
    size: int,
    limit: LimitKind,
) -> int {
    if write_index == read_index {
        if limit == LimitKind::Full {
            size
        } else {
            0
        }
    } else if write_index > read_index {
        write_index - read_index
    } else {
        size - read_index + write_index
    }
}

/// How many elements a consumer could pop, computed from one snapshot of
/// the cursors and the boundary tag.
pub fn available_to_read(
    write_index: usize,
    read_index: usize,
    size: usize,
    limit: LimitKind,
) -> (n: usize)
    requires
        cursors_in_bounds(write_index as int, read_index as int, size as int, limit),
    ensures
        n == occupancy_of(write_index as int, read_index as int, size as int, limit),
        n <= size,
{
    if write_index == read_index {
        match limit {
            LimitKind::Empty => 0,
            LimitKind::Full => size,
        }
    } else if write_index > read_index {
        write_index - read_index
    } else {
        (size - read_index) + write_index
    }
}

/// How many elements a producer could push, computed from one snapshot of
/// the cursors and the boundary tag; together with the pending count it
/// always accounts for every slot.
pub fn available_to_write(
    write_index: usize,
    read_index: usize,
    size: usize,
    limit: LimitKind,
) -> (n: usize)
    requires
        cursors_in_bounds(write_index as int, read_index as int, size as int, limit),
    ensures
        n + occupancy_of(write_index as int, read_index as int, size as int, limit) == size,
{
    if write_index == read_index {
        match limit {
            LimitKind::Empty => size,
            LimitKind::Full => 0,
        }
    } else if write_index < read_index {
        read_index - write_index
    } else {
        (size - write_index) + read_index
    }
}

/// The backing-store slot for a cursor-plus-offset sum `i`: the sum
/// wrapped once at `size`. Meaningful for `0 <= i < 2 * size`, which
/// covers every sum of an in-bounds cursor and an offset of at most
/// `size`.
pub open spec fn wrap_slot(i: int, size: int) -> int {
    if i < size {
        i
    } else {
        i - size
    }
}

/// The pending elements of a buffer, in the order a consumer will pop
/// them: the occupancy-many slots of `storage` counted forward from the
/// read cursor, wrapping at the end of the store.
pub open spec fn pending_of<T>(
    storage: Seq<T>,
    write_index: int,
    read_index: int,
    limit: LimitKind,
) -> Seq<T> {
    Seq::new(
        occupancy_of(write_index, read_index, storage.len() as int, limit) as nat,
        |i: int| storage[wrap_slot(read_index + i, storage.len() as int)],
    )
}

/// The slot a cursor moves to after touching `index`: one step forward,
/// wrapping from the last slot back to the first.
pub fn next_index(index: usize, size: usize) -> (n: usize)
    requires
        0 < size,
        index < size,
    ensures
        n == if index + 1 < size {
            index + 1
        } else {
            0
        },
{
    proof {
        if index + 1 < size {
            lemma_small_mod((index + 1) as nat, size as nat);
        } else {
            lemma_mod_self_0(size as int);
        }
    }
    (index + 1) % size
}

/// The pending sequence left by pushing each element of `items`, in
/// order, into a buffer whose pending sequence is `s`.
pub open spec fn pushed_all<T>(s: Seq<T>, items: Seq<T>) -> Seq<T>
    decreases items.len(),
{
    if items.len() == 0 {
        s
    } else {
        pushed_all(s.push(items.first()), items.drop_first())
    }
}

/// Fill law: successive pushes accumulate at the back of the pending
/// sequence, so `n` successful pushes into an empty buffer leave exactly
/// those `n` elements pending, in push order — `read_available` then
/// reports `n` and `write_available` reports `capacity - n`.
pub proof fn lemma_pushed_all_appends<T>(s: Seq<T>, items: Seq<T>)
    ensures
        pushed_all(s, items) == s + items,
    decreases items.len(),
{
    if items.len() == 0 {
        assert(pushed_all(s, items) =~= s + items);
    } else {
        lemma_pushed_all_appends(s.push(items.first()), items.drop_first());
        assert(s.push(items.first()) + items.drop_first() =~= s + items);
    }
}

/// FIFO order across interleaving: pushing onto a nonempty pending
/// sequence neither changes which element the next pop returns, nor the
/// pending sequence that results from doing both operations in either
/// order.
pub proof fn lemma_fifo_order<T>(s: Seq<T>, item: T)
    requires
        s.len() > 0,
    ensures
        s.push(item).first() == s.first(),
        s.push(item).drop_first() == s.drop_first().push(item),
{
    assert(s.push(item).drop_first() =~= s.drop_first().push(item));
}

/// FIFO order across successive pops: after `k` pops of a buffer pending
/// `s`, the pending sequence is `s.skip(k)`, so the next pop returns
/// `s[k]` — values come out in exactly the order they were pushed.
pub proof fn lemma_pop_order<T>(s: Seq<T>, k: int)
    requires
        0 <= k < s.len(),
    ensures
        s.skip(k).first() == s[k],
        s.skip(k).drop_first() == s.skip(k + 1),
        s.skip(0) == s,
{
    assert(s.skip(k).drop_first() =~= s.skip(k + 1));
    assert(s.skip(0) =~= s);
}

/// A bounded single-producer/single-consumer circular buffer over
/// copyable elements.
///
/// The contracts speak of the buffer through its view `self@`: the
/// sequence of pending elements in pop order. `push` appends to the back
/// of the view, `pop` removes its first element, and the occupancy
/// queries report its length against the fixed capacity.
///
/// One caveat for deployments that drive one producer and one consumer
/// concurrently: `is_empty`, `is_full` and the two availability queries
/// are snapshots, and their results must not be cached across operations
/// of the other side; `push` and `pop` therefore re-derive fullness and
/// emptiness from the cursors themselves rather than trust a prior
/// query.
pub struct SpscRingbuffer<T: Copy + Default> {
    buffer: Vec<T>,
    write_index: usize,
    read_index: usize,
    limit_kind: LimitKind,
    size: usize,
}

impl<T: Copy + Default> View for SpscRingbuffer<T> {
    type V = Seq<T>;

    closed spec fn view(&self) -> Seq<T> {
        pending_of(
            self.buffer@,
            self.write_index as int,
            self.read_index as int,
            self.limit_kind,
        )
    }
}

impl<T: Copy + Default> SpscRingbuffer<T> {
    /// Logical capacity fixed at construction; every one of these slots
    /// is usable.
    pub closed spec fn capacity(self) -> int {
        self.size as int
    }

    /// The buffer invariant: the backing store has exactly `capacity`
    /// slots and both cursors point into it (a zero-capacity buffer pins
    /// the cursors and the tag to the empty configuration).
    pub closed spec fn wf(self) -> bool {
        &&& self.buffer.len() == self.size
        &&& cursors_in_bounds(
            self.write_index as int,
            self.read_index as int,
            self.size as int,
            self.limit_kind,
        )
    }

    /// Number of pending elements, as the cursor-and-tag encoding holds it.
    closed spec fn occupancy(self) -> int {
        occupancy_of(
            self.write_index as int,
            self.read_index as int,
            self.size as int,
            self.limit_kind,
        )
    }

    /// The pending count never leaves `[0, capacity]`: availability
    /// reports and the success cases of `push` and `pop` cover every
    /// well-formed buffer between them.
    pub proof fn lemma_len_le_capacity(self)
        requires
            self.wf(),
        ensures
            0 <= self@.len() <= self.capacity(),
    {
    }

    /// Creates a buffer of `size` usable slots holding no pending
    /// elements. A size of zero is permitted and yields a buffer that is
    /// at once always empty and always full.
    pub fn new(size: usize) -> (buffer: SpscRingbuffer<T>)
        ensures
            buffer.wf(),
            buffer@ == Seq::<T>::empty(),
            buffer.capacity() == size,
    {
        let mut storage: Vec<T> = Vec::new();
        while storage.len() < size
            invariant
                storage.len() <= size,
            decreases size - storage.len(),
        {
            storage.push(T::default());
        }
        let buffer = SpscRingbuffer {
            buffer: storage,
            write_index: 0,
            read_index: 0,
            limit_kind: LimitKind::Empty,
            size,
        };
        proof {
            assert(buffer@ =~= Seq::<T>::empty());
        }
        buffer
    }

    /// Number of elements a consumer could pop right now.
    pub fn read_available(&self) -> (n: usize)
        requires
            self.wf(),
        ensures
            n == self@.len(),
    {
        available_to_read(self.write_index, self.read_index, self.size, self.limit_kind)
    }

    /// Number of elements a producer could push right now; together with
    /// `read_available` it accounts for the whole capacity.
    pub fn write_available(&self) -> (n: usize)
        requires
            self.wf(),
        ensures
            n + self@.len() == self.capacity(),
    {
        available_to_write(self.write_index, self.read_index, self.size, self.limit_kind)
    }

    /// True exactly when nothing is pending.
    pub fn is_empty(&self) -> (empty: bool)
        requires
            self.wf(),
        ensures
            empty == (self@.len() == 0),
    {
        self.read_available() == 0
    }

    /// True exactly when every slot is pending.
    pub fn is_full(&self) -> (full: bool)
        requires
            self.wf(),
        ensures
            full == (self@.len() == self.capacity()),
    {
        self.write_available() == 0
    }

    /// Appends `item` to the back of the pending sequence, or reports
    /// `Full` and changes nothing when every slot is pending. Producer
    /// side only: exactly one thread of control may push.
    pub fn push(&mut self, item: T) -> (result: Result<(), StoreErrorKind>)
        requires
            old(self).wf(),
        ensures
            final(self).wf(),
            final(self).capacity() == old(self).capacity(),
            old(self)@.len() < old(self).capacity() ==> {
                &&& result == Ok::<(), StoreErrorKind>(())
                &&& final(self)@ == old(self)@.push(item)
            },
            old(self)@.len() >= old(self).capacity() ==> {
                &&& result == Err::<(), StoreErrorKind>(StoreErrorKind::Full)
                &&& *final(self) == *old(self)
            },
    {
        if self.is_full() {
            return Err(StoreErrorKind::Full);
        }
        let write_index = self.write_index;
        let read_index = self.read_index;
        self.buffer[write_index] = item;
        let next_write_index = next_index(write_index, self.size);
        if next_write_index == read_index {
            self.limit_kind = LimitKind::Full;
        }
        self.write_index = next_write_index;
        proof {
            let prev = *old(self);
            let occ = prev.occupancy();
            let size = prev.size as int;
            assert(self.occupancy() == occ + 1);
            assert forall|i: int| 0 <= i < self@.len() implies self@[i] == prev@.push(item)[i] by {
                if i < occ {
                    assert(wrap_slot(prev.read_index + i, size) != write_index);
                }
            }
            assert(self@ =~= prev@.push(item));
        }
        Ok(())
    }

    /// Removes and returns the first pending element, or reports `Empty`
    /// and changes nothing when none is pending. Consumer side only:
    /// exactly one thread of control may pop.
    pub fn pop(&mut self) -> (result: Result<T, LoadErrorKind>)
        requires
            old(self).wf(),
        ensures
            final(self).wf(),
            final(self).capacity() == old(self).capacity(),
            old(self)@.len() > 0 ==> {
                &&& result == Ok::<T, LoadErrorKind>(old(self)@.first())
                &&& final(self)@ == old(self)@.drop_first()
            },
            old(self)@.len() == 0 ==> {
                &&& result == Err::<T, LoadErrorKind>(LoadErrorKind::Empty)
                &&& *final(self) == *old(self)
            },
    {
        if self.is_empty() {
            return Err(LoadErrorKind::Empty);
        }
        let read_index = self.read_index;
        let write_index = self.write_index;
        let item = self.buffer[read_index];
        let next_read_index = next_index(read_index, self.size);
        if next_read_index == write_index {
            self.limit_kind = LimitKind::Empty;
        }
        self.read_index = next_read_index;
        proof {
            let prev = *old(self);
            let occ = prev.occupancy();
            let size = prev.size as int;
            assert(self.occupancy() == occ - 1);
            assert forall|i: int| 0 <= i < self@.len() implies self@[i] == prev@.drop_first()[i] by {
                assert(wrap_slot(self.read_index + i, size) == wrap_slot(
                    prev.read_index + (i + 1),
                    size,
                ));
            }
            assert(self@ =~= prev@.drop_first());
        }
        Ok(item)
    }

    /// Captures the persisted-state representation of the buffer. Like
    /// `clear`, this is not meant to run while the other side operates;
    /// the caller must quiesce producer and consumer first.
    pub fn save_state(&self) -> (state: BufferState<T>)
        requires
            self.wf(),
        ensures
            state.wf(),
            state@ == self@,
            state.storage@.len() == self.capacity(),
    {
        BufferState {
            storage: copy_elements(&self.buffer),
            write_index: self.write_index,
            read_index: self.read_index,
            limit_kind: self.limit_kind,
        }
    }

    /// Rebuilds a buffer from a saved state: `Some` exactly when the
    /// state is admissible, and the rebuilt buffer then pends the same
    /// elements in the same pop order as the buffer that was saved.
    pub fn restore_state(state: &BufferState<T>) -> (restored: Option<SpscRingbuffer<T>>)
        ensures
            restored is Some <==> state.wf(),
            restored matches Some(buffer) ==> {
                &&& buffer.wf()
                &&& buffer@ == state@
                &&& buffer.capacity() == state.storage@.len()
            },
    {
        let size = state.storage.len();
        let admissible = if size == 0 {
            state.write_index == 0 && state.read_index == 0 && match state.limit_kind {
                LimitKind::Empty => true,
                LimitKind::Full => false,
            }
        } else {
            state.write_index < size && state.read_index < size
        };
        if admissible {
            Some(
                SpscRingbuffer {
                    buffer: copy_elements(&state.storage),
                    write_index: state.write_index,
                    read_index: state.read_index,
                    limit_kind: state.limit_kind,
                    size,
                },
            )
        } else {
            None
        }
    }

    /// Resets the buffer to the empty configuration, keeping its
    /// capacity. Not safe to run concurrently with `push` or `pop`: the
    /// caller must quiesce both sides first.
    pub fn clear(&mut self)
        requires
            old(self).wf(),
        ensures
            final(self).wf(),
            final(self).capacity() == old(self).capacity(),
            final(self)@ == Seq::<T>::empty(),
    {
        self.write_index = 0;
        self.read_index = 0;
        self.limit_kind = LimitKind::Empty;
        proof {
            assert(self@ =~= Seq::<T>::empty());
        }
    }
}

/// A plain-value image of a buffer — the persisted-state representation
/// for snapshotting and debugging: the backing store in slot order, the
/// two cursors, and the boundary tag. Restoring a saved state
/// reconstructs identical occupancy and identical future pop ordering.
pub struct BufferState<T: Copy + Default> {
    pub storage: Vec<T>,
    pub write_index: usize,
    pub read_index: usize,
    pub limit_kind: LimitKind,
}

impl<T: Copy + Default> BufferState<T> {
    /// A state is admissible when its cursors point into its storage.
    pub open spec fn wf(self) -> bool {
        cursors_in_bounds(
            self.write_index as int,
            self.read_index as int,
            self.storage@.len() as int,
            self.limit_kind,
        )
    }
}

impl<T: Copy + Default> View for BufferState<T> {
    type V = Seq<T>;

    open spec fn view(&self) -> Seq<T> {
        pending_of(
            self.storage@,
            self.write_index as int,
            self.read_index as int,
            self.limit_kind,
        )
    }
}

/// Element-for-element copy of a vector of copyable values.
fn copy_elements<T: Copy + Default>(source: &Vec<T>) -> (duplicate: Vec<T>)
    ensures
        duplicate@ == source@,
{
    let mut duplicate: Vec<T> = Vec::new();
    let mut i: usize = 0;
    while i < source.len()
        invariant
            i <= source.len(),
            duplicate@ == source@.take(i as int),
        decreases source.len() - i,
    {
        proof {
            assert(source@.take(i as int).push(source@[i as int]) =~= source@.take(i as int + 1));
        }
        duplicate.push(source[i]);
        i = i + 1;
    }
    proof {
        assert(duplicate@ =~= source@);
    }
    duplicate
}

} // verus!
