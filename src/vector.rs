//! The executable growable array.
use vstd::prelude::*;
use vstd::layout::size_of;
use crate::state::{grown_capacity, ArrayState, INITIAL_CAPACITY};

verus! {

/// A growable array that owns its elements. The live elements sit in one
/// buffer reserved for `capacity` slots; the slots past the live elements are
/// reserved but hold nothing.
pub struct MVec<T> {
    items: Vec<T>,
    capacity: usize,
}

impl<T> View for MVec<T> {
    type V = ArrayState<T>;

    closed spec fn view(&self) -> ArrayState<T> {
        ArrayState { items: self.items@, capacity: self.capacity as nat }
    }
}

impl<T> MVec<T> {
    /// The live elements never outnumber the reserved slots.
    #[verifier::type_invariant]
    closed spec fn inv(&self) -> bool {
        self.items@.len() <= self.capacity
    }

    /// An empty array, with no buffer reserved.
    pub fn new() -> (r: Self)
        ensures
            r@ == ArrayState::<T>::empty(),
            r@.bounded(),
    {
        MVec { items: Vec::new(), capacity: 0 }
    }

    /// The number of live elements.
    pub fn len(&self) -> (r: usize)
        ensures
            r == self@.len(),
            self@.bounded(),
    {
        proof {
            use_type_invariant(self);
        }
        self.items.len()
    }

    /// The number of reserved slots.
    pub fn capacity(&self) -> (r: usize)
        ensures
            r == self@.capacity,
            self@.bounded(),
    {
        proof {
            use_type_invariant(self);
        }
        self.capacity
    }

    /// Takes the live elements out, leaving the array empty with its capacity.
    fn take_items(&mut self) -> (r: Vec<T>)
        ensures
            r@ == old(self)@.items,
            final(self)@ == (ArrayState { items: Seq::<T>::empty(), capacity: old(self)@.capacity }),
    {
        let mut items: Vec<T> = Vec::new();
        std::mem::swap(&mut items, &mut self.items);
        items
    }

    /// Whether `append` can run on this state: elements of type `T` take room,
    /// and where a new buffer is needed its size in bytes fits in `isize`.
    pub open spec fn can_append(state: ArrayState<T>) -> bool {
        &&& size_of::<T>() > 0
        &&& state.is_full() ==> grown_capacity(state.capacity) * size_of::<T>() <= isize::MAX
    }

    /// Appends `value` after the last live element. A full array first moves
    /// its elements to a buffer of `grown_capacity` slots.
    pub fn push(&mut self, value: T)
        requires
            Self::can_append(old(self)@),
        ensures
            final(self)@ == old(self)@.appended(value),
            final(self)@.bounded(),
    {
        proof {
            use_type_invariant(&*self);
        }
        let mut items = self.take_items();
        if items.len() >= self.capacity {
            let slots: usize = if self.capacity == 0 {
                INITIAL_CAPACITY
            } else {
                proof {
                    let s = size_of::<T>();
                    let c = self.capacity as nat;
                    assert(c <= 2 * c * s) by (nonlinear_arith)
                        requires s > 0;
                }
                self.capacity * 2
            };
            items = relocate(items, slots);
            self.capacity = slots;
        }
        items.push(value);
        self.items = items;
    }

    /// Takes the last live element out, or returns `None`, changing nothing,
    /// when there is none. The reserved slots stay.
    pub fn pop(&mut self) -> (r: Option<T>)
        ensures
            old(self)@.len() == 0 ==> r == None::<T>,
            old(self)@.len() > 0 ==> r == Some(old(self)@.items.last()),
            final(self)@ == old(self)@.popped(),
            final(self)@.bounded(),
    {
        proof {
            use_type_invariant(&*self);
        }
        let mut items = self.take_items();
        let r = items.pop();
        self.items = items;
        r
    }

    /// Takes out the element at `index` and shifts every later element one
    /// slot toward the front, keeping their order. The reserved slots stay.
    pub fn remove(&mut self, index: usize) -> (r: T)
        requires
            index < old(self)@.len(),
        ensures
            r == old(self)@.items[index as int],
            final(self)@ == old(self)@.removed(index as int),
            final(self)@.bounded(),
    {
        proof {
            use_type_invariant(&*self);
        }
        let mut items = self.take_items();
        let r = items.remove(index);
        self.items = items;
        r
    }

    /// The element at `index`, or `None` when `index` is not below the
    /// number of live elements.
    pub fn get(&self, index: usize) -> (r: Option<&T>)
        ensures
            r == (if index < self@.len() {
                Some(&self@.items[index as int])
            } else {
                None
            }),
    {
        if index < self.items.len() {
            Some(&self.items[index])
        } else {
            None
        }
    }

    /// The live elements, in index order.
    pub fn as_slice(&self) -> (r: &[T])
        ensures
            r@ == self@.items,
    {
        self.items.as_slice()
    }
}

impl<T> Default for MVec<T> {
    /// An empty array, with no buffer reserved.
    fn default() -> (r: Self)
        ensures
            r@ == ArrayState::<T>::empty(),
    {
        MVec::new()
    }
}

impl<T> std::ops::Deref for MVec<T> {
    type Target = [T];

    /// The live elements as a slice.
    fn deref(&self) -> (r: &[T])
        ensures
            r@ == self@.items,
    {
        self.items.as_slice()
    }
}

impl<T> std::ops::Index<usize> for MVec<T> {
    type Output = T;

    /// The element at `index`, which must be below the number of live
    /// elements.
    fn index(&self, index: usize) -> (r: &T)
        ensures
            *r == self@.items[index as int],
    {
        &self.items[index]
    }
}

impl<T> vstd::std_specs::core::IndexSpecImpl<usize> for MVec<T> {
    open spec fn index_req(&self, index: &usize) -> bool {
        *index < self@.len()
    }
}

impl<T> std::ops::Index<std::ops::Range<usize>> for MVec<T> {
    type Output = [T];

    /// The live elements from `range.start` up to, not including,
    /// `range.end`, which must not exceed the number of live elements.
    fn index(&self, range: std::ops::Range<usize>) -> (r: &[T])
        ensures
            r@ == self@.items.subrange(range.start as int, range.end as int),
    {
        vstd::slice::slice_subrange(self.items.as_slice(), range.start, range.end)
    }
}

impl<T> vstd::std_specs::core::IndexSpecImpl<std::ops::Range<usize>> for MVec<T> {
    open spec fn index_req(&self, range: &std::ops::Range<usize>) -> bool {
        range.start <= range.end <= self@.len()
    }
}

/// Moves the elements of `old_buffer` into a fresh buffer reserved for
/// `slots` elements, in the same order; the old buffer is released empty, so
/// no element is dropped or duplicated on the way.
fn relocate<T>(old_buffer: Vec<T>, slots: usize) -> (r: Vec<T>)
    requires
        slots as nat * size_of::<T>() <= isize::MAX,
    ensures
        r@ == old_buffer@,
{
    let mut old_buffer = old_buffer;
    let mut fresh: Vec<T> = Vec::with_capacity(slots);
    fresh.append(&mut old_buffer);
    fresh
}

} // verus!
