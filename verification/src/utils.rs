use std::collections::VecDeque;
use vstd::prelude::*;

verus! {

/// The last `cap` items of `s`, in their order; all of `s` where it holds no
/// more than `cap`.
pub open spec fn keep_last<T>(s: Seq<T>, cap: nat) -> Seq<T> {
    if s.len() <= cap {
        s
    } else {
        s.subrange(s.len() - cap, s.len() as int)
    }
}

/// What a history of capacity `cap` holds after the items of `items` were
/// pushed into it one by one, starting from `start`.
pub open spec fn push_all<T>(start: Seq<T>, items: Seq<T>, cap: nat) -> Seq<T>
    decreases items.len(),
{
    if items.len() == 0 {
        start
    } else {
        keep_last(push_all(start, items.drop_last(), cap).push(items.last()), cap)
    }
}

/// A first-in, first-out history with a fixed capacity: the oldest item sits
/// at index 0, and a push into a full history drops it.
pub struct MaxSizeVec<T> {
    p_vec: VecDeque<T>,
    max_len: usize,
}

impl<T> View for MaxSizeVec<T> {
    type V = Seq<T>;

    closed spec fn view(&self) -> Seq<T> {
        self.p_vec@
    }
}

impl<T> MaxSizeVec<T> {
    /// The capacity the history was made with.
    pub closed spec fn capacity(&self) -> nat {
        self.max_len as nat
    }

    /// The history never holds more than its capacity.
    pub open spec fn wf(&self) -> bool {
        self@.len() <= self.capacity()
    }

    /// An empty history that will hold at most `max_len` items.
    pub fn new(max_len: usize) -> (r: Self)
        ensures
            r@ == Seq::<T>::empty(),
            r.capacity() == max_len,
            r.wf(),
    {
        MaxSizeVec { p_vec: VecDeque::new(), max_len }
    }

    /// Appends `item`, dropping the oldest item where the history is full.
    pub fn push(&mut self, item: T)
        requires
            old(self).wf(),
        ensures
            final(self).wf(),
            final(self).capacity() == old(self).capacity(),
            final(self)@ == keep_last(old(self)@.push(item), old(self).capacity()),
    {
        if self.max_len == 0 {
            assert(self.p_vec@.push(item).subrange(1, 1) =~= self.p_vec@);
            return ;
        }
        if self.p_vec.len() >= self.max_len {
            let _ = self.p_vec.pop_front();
        }
        self.p_vec.push_back(item);
        assert(self.p_vec@ =~= keep_last(old(self).p_vec@.push(item), self.max_len as nat));
    }

    /// The number of items held.
    pub fn len(&self) -> (n: usize)
        ensures
            n == self@.len(),
    {
        self.p_vec.len()
    }

    /// The capacity, as a number.
    pub fn max_len(&self) -> (n: usize)
        ensures
            n == self.capacity(),
    {
        self.max_len
    }

    /// The items, oldest first, without copying.
    pub fn get_deque(&self) -> (r: &VecDeque<T>)
        ensures
            r@ == self@,
    {
        &self.p_vec
    }

    /// A copy of the items, oldest first.
    pub fn get_vec(&self) -> (r: Vec<T>) where T: Clone
        ensures
            r@.len() == self@.len(),
            forall|i: int| 0 <= i < self@.len() ==> cloned::<T>(self@[i], #[trigger] r@[i]),
    {
        let mut out: Vec<T> = Vec::new();
        let n: usize = self.p_vec.len();
        let mut i: usize = 0;
        while i < n
            invariant
                n == self.p_vec@.len(),
                i <= n,
                out@.len() == i,
                forall|j: int| 0 <= j < i ==> cloned::<T>(self.p_vec@[j], #[trigger] out@[j]),
            decreases n - i,
        {
            let item = self.p_vec[i].clone();
            out.push(item);
            i = i + 1;
        }
        out
    }
}

/// Pushing into a history never leaves more than `cap` items in it.
pub proof fn lemma_push_all_bounded<T>(start: Seq<T>, items: Seq<T>, cap: nat)
    requires
        start.len() <= cap,
    ensures
        push_all(start, items, cap).len() <= cap,
    decreases items.len(),
{
    if items.len() > 0 {
        lemma_push_all_bounded(start, items.drop_last(), cap);
    }
}

/// The history bound: after pushing `items` into an empty history of
/// capacity `cap`, the history holds the last `cap` of them, in the order in
/// which they were pushed; where more than `cap` were pushed, it holds
/// exactly `cap` items.
pub proof fn lemma_history_bound<T>(items: Seq<T>, cap: nat)
    ensures
        push_all(Seq::<T>::empty(), items, cap) == keep_last(items, cap),
        items.len() > cap ==> push_all(Seq::<T>::empty(), items, cap).len() == cap,
        items.len() > cap ==> push_all(Seq::<T>::empty(), items, cap) == items.subrange(
            items.len() - cap,
            items.len() as int,
        ),
    decreases items.len(),
{
    if items.len() == 0 {
    } else {
        lemma_history_bound(items.drop_last(), cap);
        let before = keep_last(items.drop_last(), cap);
        assert(keep_last(before.push(items.last()), cap) =~= keep_last(items, cap));
    }
}

} // verus!
