use std::collections::VecDeque;
use vstd::prelude::*;

verus! {

/// A FIFO buffer of bounded length that never makes its producer wait:
/// when it is full, pushing evicts the oldest item and counts it.
pub struct BoundedQueue<T> {
    items: VecDeque<T>,
    capacity: usize,
    dropped: u64,
}

/// The count after one more eviction, held at `u64::MAX`.
pub open spec fn count_one_more(n: u64) -> u64 {
    if n < u64::MAX {
        (n + 1) as u64
    } else {
        n
    }
}

impl<T> BoundedQueue<T> {
    /// The items held, oldest first.
    pub closed spec fn items(&self) -> Seq<T> {
        self.items@
    }

    pub closed spec fn capacity_spec(&self) -> nat {
        self.capacity as nat
    }

    pub closed spec fn dropped_spec(&self) -> u64 {
        self.dropped
    }

    pub open spec fn wf(&self) -> bool {
        0 < self.capacity_spec() && self.items().len() <= self.capacity_spec()
    }

    /// An empty queue that holds at most `capacity` items.
    pub fn new(capacity: usize) -> (r: Self)
        requires
            capacity > 0,
        ensures
            r.wf(),
            r.items() == Seq::<T>::empty(),
            r.capacity_spec() == capacity,
            r.dropped_spec() == 0,
    {
        BoundedQueue { items: VecDeque::new(), capacity, dropped: 0 }
    }

    /// Appends an item; when the queue is full the oldest item is evicted
    /// first. Returns whether one was.
    pub fn push(&mut self, item: T) -> (evicted: bool)
        requires
            old(self).wf(),
        ensures
            final(self).wf(),
            final(self).capacity_spec() == old(self).capacity_spec(),
            evicted == (old(self).items().len() == old(self).capacity_spec()),
            evicted ==> final(self).items() == old(self).items().drop_first().push(item),
            evicted ==> final(self).dropped_spec() == count_one_more(old(self).dropped_spec()),
            !evicted ==> final(self).items() == old(self).items().push(item),
            !evicted ==> final(self).dropped_spec() == old(self).dropped_spec(),
    {
        let evicted = self.items.len() == self.capacity;
        if evicted {
            let _ = self.items.pop_front();
            if self.dropped < u64::MAX {
                self.dropped = self.dropped + 1;
            }
        }
        self.items.push_back(item);
        proof {
            if evicted {
                assert(old(self).items().subrange(1, old(self).items().len() as int)
                    =~= old(self).items().drop_first());
            }
        }
        evicted
    }

    /// Removes and returns the oldest item.
    pub fn pop(&mut self) -> (r: Option<T>)
        requires
            old(self).wf(),
        ensures
            final(self).wf(),
            final(self).capacity_spec() == old(self).capacity_spec(),
            final(self).dropped_spec() == old(self).dropped_spec(),
            old(self).items().len() == 0 ==> r is None && final(self).items() == old(self).items(),
            old(self).items().len() > 0 ==> r == Some(old(self).items()[0]) && final(self).items()
                == old(self).items().drop_first(),
    {
        let r = self.items.pop_front();
        proof {
            assert(old(self).items().subrange(1, old(self).items().len() as int)
                =~= old(self).items().drop_first());
        }
        r
    }

    /// Removes and returns up to `max` of the oldest items, oldest first.
    pub fn drain(&mut self, max: usize) -> (r: Vec<T>)
        requires
            old(self).wf(),
        ensures
            final(self).wf(),
            final(self).capacity_spec() == old(self).capacity_spec(),
            final(self).dropped_spec() == old(self).dropped_spec(),
            r@.len() == if max < old(self).items().len() {
                max as nat
            } else {
                old(self).items().len()
            },
            r@ + final(self).items() == old(self).items(),
    {
        let mut r: Vec<T> = Vec::new();
        while r.len() < max && self.items.len() > 0
            invariant
                self.wf(),
                self.capacity_spec() == old(self).capacity_spec(),
                self.dropped_spec() == old(self).dropped_spec(),
                r@.len() <= max,
                r@ + self.items() == old(self).items(),
            decreases self.items().len(),
        {
            let ghost before = self.items();
            match self.items.pop_front() {
                Some(x) => {
                    r.push(x);
                    assert(r@ + self.items() =~= old(self).items()) by {
                        assert(before =~= seq![x] + self.items());
                        assert(r@ =~= r@.drop_last().push(x));
                    }
                },
                None => {},
            }
        }
        r
    }

    pub fn len(&self) -> (r: usize)
        ensures
            r == self.items().len(),
    {
        self.items.len()
    }

    pub fn is_empty(&self) -> (r: bool)
        ensures
            r == (self.items().len() == 0),
    {
        self.items.len() == 0
    }

    pub fn capacity(&self) -> (r: usize)
        ensures
            r == self.capacity_spec(),
    {
        self.capacity
    }

    /// How many items were evicted so far, held at `u64::MAX`.
    pub fn dropped(&self) -> (r: u64)
        ensures
            r == self.dropped_spec(),
    {
        self.dropped
    }
}

} // verus!
