//! A fixed-capacity buffer that keeps the most recent values appended to it.

use vstd::prelude::*;

verus! {

/// The last `capacity` elements of `history`, oldest first; all of `history`
/// when it is no longer than `capacity`.
pub open spec fn retained<T>(history: Seq<T>, capacity: nat) -> Seq<T> {
    if history.len() <= capacity {
        history
    } else {
        history.subrange(history.len() - capacity, history.len() as int)
    }
}

/// What a buffer of the given capacity holds after the values of `vals` are
/// appended, one by one and in order, to a buffer that held `held`.
pub open spec fn append_all<T>(held: Seq<T>, capacity: nat, vals: Seq<T>) -> Seq<T>
    decreases vals.len(),
{
    if vals.len() == 0 {
        held
    } else {
        append_all(retained(held.push(vals[0]), capacity), capacity, vals.drop_first())
    }
}

/// A ring of at most `max_size` values. Once it is full, each appended value
/// takes the place of the oldest one.
pub struct CircularVec<T> {
    vec: Vec<T>,
    start: usize,
    end: usize,
    max_size: usize,
}

impl<T> View for CircularVec<T> {
    type V = Seq<T>;

    /// The retained values, oldest first.
    closed spec fn view(&self) -> Seq<T> {
        self.vec@.subrange(self.start as int, self.vec@.len() as int) + self.vec@.subrange(
            0,
            self.start as int,
        )
    }
}

impl<T> CircularVec<T> {
    /// The largest number of values the buffer retains.
    pub closed spec fn capacity(&self) -> nat {
        self.max_size as nat
    }

    /// The representation invariant: the storage never outgrows the capacity,
    /// and `start` and `end` name the oldest slot and the slot written next.
    pub closed spec fn wf(&self) -> bool {
        &&& self.max_size > 0
        &&& self.vec@.len() <= self.max_size
        &&& if self.vec@.len() < self.max_size {
            self.start == 0 && self.end == self.vec@.len()
        } else {
            self.start < self.max_size && self.end == self.start
        }
    }

    /// A buffer never holds more values than its capacity.
    pub proof fn lemma_len_bounded(&self)
        requires
            self.wf(),
        ensures
            self@.len() <= self.capacity(),
    {
    }

    /// The state between writing a value into its slot and advancing the
    /// range over it.
    spec fn written(&self) -> bool {
        &&& self.max_size > 0
        &&& 0 < self.vec@.len() <= self.max_size
        &&& self.end < self.max_size
        &&& self.start < self.max_size
        &&& self.end + 1 == self.vec@.len() && self.start == 0 || self.vec@.len() == self.max_size
            && self.end == self.start
    }

    /// An empty buffer that retains up to `max_size` values.
    pub fn new(max_size: usize) -> (buffer: CircularVec<T>)
        requires
            max_size > 0,
        ensures
            buffer.wf(),
            buffer.capacity() == max_size,
            buffer@ == Seq::<T>::empty(),
    {
        CircularVec { vec: Vec::new(), start: 0, end: 0, max_size }
    }

    /// Appends `val` as the newest value; a full buffer drops its oldest one.
    pub fn append(&mut self, val: T)
        requires
            old(self).wf(),
        ensures
            final(self).wf(),
            final(self).capacity() == old(self).capacity(),
            final(self)@ == retained(old(self)@.push(val), old(self).capacity()),
    {
        if self.vec.len() < self.max_size {
            self.vec.push(val);
        } else {
            self.vec[self.end] = val;
        }
        self.increment_range();
        assert(self@ =~= retained(old(self)@.push(val), old(self).capacity()));
    }

    /// The value at logical position `index`, where position 0 is the oldest
    /// retained value.
    pub fn get(&self, index: usize) -> (value: Option<&T>)
        requires
            self.wf(),
        ensures
            index < self@.len() ==> value == Some(&self@[index as int]),
            index >= self@.len() ==> value is None,
    {
        if index >= self.vec.len() {
            return None;
        }
        let wrap = self.max_size - self.start;
        let slot = if index >= wrap {
            index - wrap
        } else {
            self.start + index
        };
        Some(&self.vec[slot])
    }

    /// Advances `end` past the slot just written, wrapping at the capacity;
    /// in a full buffer the oldest slot is the one written next.
    fn increment_range(&mut self)
        requires
            old(self).written(),
        ensures
            final(self).wf(),
            final(self).vec == old(self).vec,
            final(self).max_size == old(self).max_size,
            final(self).end == (if old(self).end + 1 == old(self).max_size {
                0
            } else {
                old(self).end + 1
            }),
            final(self).start == (if old(self).vec@.len() == old(self).max_size {
                final(self).end
            } else {
                old(self).start
            }),
    {
        self.end += 1;

        if self.end == self.max_size {
            self.end = 0;
        }
        if self.vec.len() == self.max_size {
            self.start = self.end;
        }
    }
}

/// Appending a run of values to a buffer that holds no more than its
/// capacity leaves the last `capacity` values of everything it was given, in
/// the order they came.
pub proof fn lemma_append_all_retains_last<T>(held: Seq<T>, capacity: nat, vals: Seq<T>)
    requires
        held.len() <= capacity,
    ensures
        append_all(held, capacity, vals) == retained(held + vals, capacity),
    decreases vals.len(),
{
    if vals.len() == 0 {
        assert(held + vals =~= held);
    } else {
        let next = retained(held.push(vals[0]), capacity);
        lemma_append_all_retains_last(next, capacity, vals.drop_first());
        assert(retained(next + vals.drop_first(), capacity) =~= retained(held + vals, capacity));
    }
}

/// After `capacity + extra` values were appended to an empty buffer of
/// capacity at least one, the buffer holds exactly `capacity` values, and the
/// oldest of them is the value that was appended at position `extra`.
pub proof fn lemma_oldest_survivor<T>(capacity: nat, extra: nat, vals: Seq<T>)
    requires
        capacity >= 1,
        vals.len() == capacity + extra,
    ensures
        append_all(Seq::<T>::empty(), capacity, vals).len() == capacity,
        append_all(Seq::<T>::empty(), capacity, vals)[0] == vals[extra as int],
{
    lemma_append_all_retains_last(Seq::<T>::empty(), capacity, vals);
    assert(Seq::<T>::empty() + vals =~= vals);
}

} // verus!
