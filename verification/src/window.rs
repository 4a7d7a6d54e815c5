use vstd::prelude::*;

verus! {

/// The last `n` elements of `s` (all of `s` when it is not longer than `n`).
pub open spec fn keep_last<T>(s: Seq<T>, n: nat) -> Seq<T> {
    if s.len() > n {
        s.subrange(s.len() - n, s.len() as int)
    } else {
        s
    }
}

/// A bounded history of values: pushing beyond the capacity drops the
/// oldest value. Backs every price and signal history of the bot.
pub struct RollingWindow<T> {
    items: Vec<T>,
    capacity: usize,
}

impl<T> View for RollingWindow<T> {
    type V = Seq<T>;

    closed spec fn view(&self) -> Seq<T> {
        self.items@
    }
}

impl<T> RollingWindow<T> {
    /// The window never holds more values than its capacity.
    pub closed spec fn wf(&self) -> bool {
        self.items@.len() <= self.capacity
    }

    pub closed spec fn spec_capacity(&self) -> nat {
        self.capacity as nat
    }

    /// An empty window that keeps at most `capacity` values.
    pub fn new(capacity: usize) -> (w: Self)
        ensures
            w.wf(),
            w@ == Seq::<T>::empty(),
            w.spec_capacity() == capacity,
    {
        RollingWindow { items: Vec::new(), capacity }
    }

    /// Appends `value`, dropping the oldest value when the window is full.
    pub fn push(&mut self, value: T)
        requires
            old(self).wf(),
        ensures
            final(self).wf(),
            final(self).spec_capacity() == old(self).spec_capacity(),
            final(self)@ == keep_last(old(self)@.push(value), old(self).spec_capacity()),
    {
        self.items.push(value);
        if self.items.len() > self.capacity {
            self.items.remove(0);
        }
        proof {
            let s = old(self).items@.push(value);
            if s.len() > self.capacity {
                assert(self.items@ =~= s.subrange(s.len() - self.capacity, s.len() as int));
            }
        }
    }

    /// Number of values currently held.
    pub fn len(&self) -> (n: usize)
        ensures
            n == self@.len(),
    {
        self.items.len()
    }

    /// The capacity the window was created with.
    pub fn capacity(&self) -> (c: usize)
        ensures
            c == self.spec_capacity(),
    {
        self.capacity
    }

    /// True when no value is held.
    pub fn is_empty(&self) -> (b: bool)
        ensures
            b == (self@.len() == 0),
    {
        self.items.len() == 0
    }

    /// The value at position `i`, oldest first.
    pub fn get(&self, i: usize) -> (r: &T)
        requires
            i < self@.len(),
        ensures
            *r == self@[i as int],
    {
        &self.items[i]
    }

    /// The held values, oldest first.
    pub fn as_slice(&self) -> (r: &[T])
        ensures
            r@ == self@,
    {
        self.items.as_slice()
    }

    /// Drops every held value; the capacity stays.
    pub fn clear(&mut self)
        requires
            old(self).wf(),
        ensures
            final(self).wf(),
            final(self)@ == Seq::<T>::empty(),
            final(self).spec_capacity() == old(self).spec_capacity(),
    {
        self.items.clear();
    }
}

/// Law: a window always holds exactly the last `capacity` values of the
/// whole sequence pushed into it, however long that sequence has grown.
pub proof fn lemma_window_keeps_latest<T>(history: Seq<T>, value: T, n: nat)
    ensures
        keep_last(keep_last(history, n).push(value), n) == keep_last(history.push(value), n),
{
    let k = keep_last(history, n);
    let lhs = keep_last(k.push(value), n);
    let rhs = keep_last(history.push(value), n);
    if history.len() > n {
        assert(lhs =~= rhs);
    } else {
        assert(k == history);
    }
}

} // verus!
