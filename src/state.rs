//! The abstract state of a growable array: the sequence of live elements and
//! the number of reserved slots, with the effect of each operation on it.
use vstd::prelude::*;

verus! {

/// Number of slots reserved by the first append.
pub const INITIAL_CAPACITY: usize = 4;

/// The capacity that an array of `cap` slots moves to when it is full and one
/// more element is appended: four slots at first, then twice as many.
pub open spec fn grown_capacity(cap: nat) -> nat {
    if cap == 0 {
        INITIAL_CAPACITY as nat
    } else {
        2 * cap
    }
}

/// What a growable array holds: its live elements in index order, and the
/// number of slots reserved for them.
pub struct ArrayState<T> {
    pub items: Seq<T>,
    pub capacity: nat,
}

impl<T> ArrayState<T> {
    /// A freshly constructed array: nothing live, nothing reserved.
    pub open spec fn empty() -> Self {
        ArrayState { items: Seq::empty(), capacity: 0 }
    }

    pub open spec fn len(self) -> nat {
        self.items.len()
    }

    /// Every live element has a reserved slot.
    pub open spec fn bounded(self) -> bool {
        self.items.len() <= self.capacity
    }

    /// Whether appending to this state reserves a new buffer.
    pub open spec fn is_full(self) -> bool {
        self.items.len() >= self.capacity
    }

    /// The state after appending `x`: the buffer grows only when it is full.
    pub open spec fn appended(self, x: T) -> Self {
        ArrayState {
            items: self.items.push(x),
            capacity: if self.is_full() {
                grown_capacity(self.capacity)
            } else {
                self.capacity
            },
        }
    }

    /// The state after taking the last element out, if there is one; the
    /// reserved slots stay.
    pub open spec fn popped(self) -> Self {
        if self.items.len() == 0 {
            self
        } else {
            ArrayState { items: self.items.drop_last(), capacity: self.capacity }
        }
    }

    /// The state after taking out the element at `i` and closing the gap;
    /// the reserved slots stay.
    pub open spec fn removed(self, i: int) -> Self {
        ArrayState { items: self.items.remove(i), capacity: self.capacity }
    }
}

/// One operation that changes a growable array.
pub enum Operation<T> {
    Append(T),
    Pop,
    Remove(nat),
}

impl<T> ArrayState<T> {
    /// The state after applying `op`.
    pub open spec fn step(self, op: Operation<T>) -> Self {
        match op {
            Operation::Append(x) => self.appended(x),
            Operation::Pop => self.popped(),
            Operation::Remove(i) => self.removed(i as int),
        }
    }

    /// Whether `op` may be applied: a removal names a live element.
    pub open spec fn admits(self, op: Operation<T>) -> bool {
        match op {
            Operation::Remove(i) => i < self.items.len(),
            _ => true,
        }
    }

    /// The state after applying `ops` in order.
    pub open spec fn run(self, ops: Seq<Operation<T>>) -> Self
        decreases ops.len(),
    {
        if ops.len() == 0 {
            self
        } else {
            self.step(ops[0]).run(ops.drop_first())
        }
    }

    /// Whether every operation of `ops` is admitted by the state it meets.
    pub open spec fn admits_all(self, ops: Seq<Operation<T>>) -> bool
        decreases ops.len(),
    {
        ops.len() == 0 || (self.admits(ops[0]) && self.step(ops[0]).admits_all(ops.drop_first()))
    }

    /// The state after appending every element of `xs`, first to last.
    pub open spec fn appended_all(self, xs: Seq<T>) -> Self
        decreases xs.len(),
    {
        if xs.len() == 0 {
            self
        } else {
            self.appended_all(xs.drop_last()).appended(xs.last())
        }
    }
}

/// Each admitted operation keeps the live elements within the reserved slots.
pub proof fn lemma_step_bounded<T>(s: ArrayState<T>, op: Operation<T>)
    requires
        s.bounded(),
        s.admits(op),
    ensures
        s.step(op).bounded(),
{
}

/// Whatever sequence of appends, pops and in-range removals is applied, the
/// number of live elements never exceeds the capacity.
pub proof fn lemma_run_bounded<T>(s: ArrayState<T>, ops: Seq<Operation<T>>)
    requires
        s.bounded(),
        s.admits_all(ops),
    ensures
        s.run(ops).bounded(),
    decreases ops.len(),
{
    if ops.len() > 0 {
        lemma_step_bounded(s, ops[0]);
        lemma_run_bounded(s.step(ops[0]), ops.drop_first());
    }
}

/// The first append to a fresh array reserves four slots and holds one element.
pub proof fn lemma_first_append<T>(x: T)
    ensures
        ArrayState::<T>::empty().appended(x).capacity == 4,
        ArrayState::<T>::empty().appended(x).len() == 1,
{
}

/// An append to a full array raises the capacity and leaves every earlier
/// element at its index.
pub proof fn lemma_growth<T>(s: ArrayState<T>, x: T)
    requires
        s.bounded(),
        s.len() == s.capacity,
    ensures
        s.appended(x).capacity > s.capacity,
        s.appended(x).bounded(),
        forall|i: int| 0 <= i < s.len() ==> #[trigger] s.appended(x).items[i] == s.items[i],
{
}

/// Appending the elements of `xs` one by one places them after the earlier
/// elements, in the order of `xs`.
pub proof fn lemma_appends_in_order<T>(s: ArrayState<T>, xs: Seq<T>)
    ensures
        s.appended_all(xs).items == s.items + xs,
    decreases xs.len(),
{
    if xs.len() > 0 {
        lemma_appends_in_order(s, xs.drop_last());
        assert(xs.drop_last().push(xs.last()) == xs);
        assert((s.items + xs.drop_last()).push(xs.last()) == s.items + xs);
    }
}

/// Appending to a fresh array and then reading index `i` gives the `i`-th
/// appended element.
pub proof fn lemma_fresh_appends_read_back<T>(xs: Seq<T>, i: int)
    requires
        0 <= i < xs.len(),
    ensures
        ArrayState::<T>::empty().appended_all(xs).len() == xs.len(),
        ArrayState::<T>::empty().appended_all(xs).items[i] == xs[i],
{
    lemma_appends_in_order(ArrayState::<T>::empty(), xs);
    assert(Seq::<T>::empty() + xs == xs);
}

/// A pop right after appending `x` gives back `x` and the earlier elements;
/// the pop leaves the capacity as the append left it, which is the earlier
/// capacity unless the append found the array full.
pub proof fn lemma_append_then_pop<T>(s: ArrayState<T>, x: T)
    ensures
        s.appended(x).len() > 0,
        s.appended(x).items.last() == x,
        s.appended(x).popped().items == s.items,
        s.appended(x).popped().capacity == s.appended(x).capacity,
        !s.is_full() ==> s.appended(x).popped() == s,
{
    assert(s.items.push(x).drop_last() == s.items);
}

/// Removing index `i` takes out exactly the `i`-th element and keeps the
/// others in order.
pub proof fn lemma_remove_keeps_order<T>(s: ArrayState<T>, i: int)
    requires
        0 <= i < s.len(),
    ensures
        s.removed(i).items == s.items.subrange(0, i) + s.items.subrange(i + 1, s.len() as int),
        s.removed(i).len() == s.len() - 1,
        s.removed(i).capacity == s.capacity,
{
}

/// A pop on an empty array leaves it as it is.
pub proof fn lemma_pop_empty<T>(s: ArrayState<T>)
    requires
        s.len() == 0,
    ensures
        s.popped() == s,
{
}

} // verus!
