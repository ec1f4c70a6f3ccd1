use std::collections::VecDeque;
use vstd::prelude::*;

verus! {

/// A double-ended queue that holds at most a fixed number of items. New
/// items enter at the front; when the queue is full the item at the back
/// (the oldest) is dropped to make room.
pub struct FixedLengthQueue<T> {
    pub queue: VecDeque<T>,
    length: usize,
}

/// The contents after pushing `value` at the front of `items` in a queue
/// that holds at most `cap` items.
pub open spec fn pushed<T>(items: Seq<T>, cap: nat, value: T) -> Seq<T> {
    if items.len() >= cap && items.len() > 0 {
        seq![value] + items.drop_last()
    } else {
        seq![value] + items
    }
}

/// The contents after pushing every item of `xs`, first to last, onto `items`.
pub open spec fn pushed_all<T>(items: Seq<T>, cap: nat, xs: Seq<T>) -> Seq<T>
    decreases xs.len(),
{
    if xs.len() == 0 {
        items
    } else {
        pushed(pushed_all(items, cap, xs.drop_last()), cap, xs.last())
    }
}

/// The last `cap` items of `xs` (all of them if there are fewer), newest first.
pub open spec fn newest_first<T>(xs: Seq<T>, cap: nat) -> Seq<T> {
    let n: nat = if xs.len() < cap { xs.len() } else { cap };
    Seq::new(n, |i: int| xs[xs.len() - 1 - i])
}

impl<T> View for FixedLengthQueue<T> {
    type V = Seq<T>;

    /// The items, newest first.
    closed spec fn view(&self) -> Seq<T> {
        self.queue@
    }
}

impl<T> FixedLengthQueue<T> {
    /// The most items the queue holds.
    pub closed spec fn capacity(&self) -> nat {
        self.length as nat
    }

    /// The capacity is positive and not exceeded.
    pub open spec fn wf(&self) -> bool {
        &&& 0 < self.capacity()
        &&& self@.len() <= self.capacity()
    }

    /// An empty queue that holds at most `size` items; `size` must be positive.
    pub fn new(size: usize) -> (r: Self)
        requires
            size > 0,
        ensures
            r@ == Seq::<T>::empty(),
            r.capacity() == size,
            r.wf(),
    {
        Self { queue: VecDeque::with_capacity(size), length: size }
    }

    /// Pushes `value` at the front, first dropping the oldest item when full.
    pub fn push_front_(&mut self, value: T)
        ensures
            final(self)@ == pushed(old(self)@, old(self).capacity(), value),
            final(self).capacity() == old(self).capacity(),
            old(self).wf() ==> final(self).wf(),
    {
        if self.queue.len() >= self.length {
            self.queue.pop_back();
        }
        self.queue.push_front(value);
    }

    /// Like `push_front_`, but takes the queue by value and hands it back.
    pub fn push_front(self, value: T) -> (r: Self)
        ensures
            r@ == pushed(self@, self.capacity(), value),
            r.capacity() == self.capacity(),
            self.wf() ==> r.wf(),
    {
        let length: usize = self.length;
        let mut queue = self.queue;
        if queue.len() >= length {
            queue.pop_back();
        }
        queue.push_front(value);
        Self { length, queue }
    }

    /// Removes and returns the oldest item (the one at the back), if any.
    pub fn pop_oldest(&mut self) -> (r: Option<T>)
        ensures
            old(self)@.len() > 0 ==> r == Some(old(self)@.last()) && final(self)@
                == old(self)@.drop_last(),
            old(self)@.len() == 0 ==> r is None && final(self)@ == old(self)@,
            final(self).capacity() == old(self).capacity(),
            old(self).wf() ==> final(self).wf(),
    {
        self.queue.pop_back()
    }

    /// The number of items held.
    pub fn len(&self) -> (r: usize)
        ensures
            r == self@.len(),
    {
        self.queue.len()
    }

    /// The most items the queue holds.
    pub fn size(&self) -> (r: usize)
        ensures
            r == self.capacity(),
    {
        self.length
    }

    /// Whether the queue holds no item.
    pub fn is_empty(&self) -> (r: bool)
        ensures
            r == (self@.len() == 0),
    {
        self.queue.len() == 0
    }
}

/// A push never lets a well-formed queue exceed its capacity: it grows by one
/// until full and then keeps its length, with the new item in front.
pub proof fn lemma_push_bounded<T>(items: Seq<T>, cap: nat, value: T)
    requires
        0 < cap,
        items.len() <= cap,
    ensures
        pushed(items, cap, value).len() == if items.len() < cap { items.len() + 1 } else { cap },
        pushed(items, cap, value)[0] == value,
        forall|i: int|
            0 <= i < pushed(items, cap, value).len() - 1 ==> #[trigger] pushed(items, cap, value)[i + 1]
                == items[i],
{
}

/// Starting from an empty queue, pushing the items of `xs` in order leaves
/// exactly the last `cap` of them (all of them if there are fewer), newest
/// first; so after `k` pushes the queue holds `min(k, cap)` items.
pub proof fn lemma_push_history<T>(cap: nat, xs: Seq<T>)
    requires
        0 < cap,
    ensures
        pushed_all(Seq::<T>::empty(), cap, xs) == newest_first(xs, cap),
        pushed_all(Seq::<T>::empty(), cap, xs).len() == if xs.len() < cap { xs.len() } else { cap },
    decreases xs.len(),
{
    if xs.len() > 0 {
        let prev = xs.drop_last();
        lemma_push_history(cap, prev);
        let p = pushed_all(Seq::<T>::empty(), cap, prev);
        assert(pushed(p, cap, xs.last()) =~= newest_first(xs, cap));
    } else {
        assert(newest_first(xs, cap) =~= Seq::<T>::empty());
    }
}

} // verus!
