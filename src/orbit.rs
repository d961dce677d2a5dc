//! A fixed-capacity FIFO window over a stream of states, stored as a circular
//! buffer with a write cursor so that a push never shifts the stored items.
use vstd::prelude::*;

verus! {

/// The most recent `cap` items of `s`, oldest first.
pub open spec fn window<T>(s: Seq<T>, cap: nat) -> Seq<T> {
    if s.len() <= cap {
        s
    } else {
        s.subrange(s.len() - cap, s.len() as int)
    }
}

/// What a window of capacity `cap` holding `s` holds after `xs` is pushed into
/// it item by item, as `Orbit::push` describes each step.
pub open spec fn after_pushes<T>(s: Seq<T>, xs: Seq<T>, cap: nat) -> Seq<T>
    decreases xs.len(),
{
    if xs.len() == 0 {
        s
    } else {
        window(after_pushes(s, xs.drop_last(), cap).push(xs.last()), cap)
    }
}

proof fn lemma_window_push<T>(u: Seq<T>, x: T, cap: nat)
    ensures
        window(window(u, cap).push(x), cap) =~= window(u.push(x), cap),
{
}

/// The window is first in, first out: after any run of pushes it holds exactly
/// the most recent `cap` items of everything pushed, in the order they came, so
/// the oldest item kept is the one pushed longest ago among those kept.
pub proof fn lemma_window_fifo<T>(s: Seq<T>, xs: Seq<T>, cap: nat)
    requires
        s.len() <= cap,
    ensures
        after_pushes(s, xs, cap) == window(s + xs, cap),
    decreases xs.len(),
{
    if xs.len() == 0 {
        assert(s + xs =~= s);
    } else {
        lemma_window_fifo(s, xs.drop_last(), cap);
        lemma_window_push(s + xs.drop_last(), xs.last(), cap);
        assert((s + xs.drop_last()).push(xs.last()) =~= s + xs);
    }
}

/// A window that starts from one state holds `min(n + 1, cap)` states after
/// `n` further pushes.
pub proof fn lemma_window_len_from_one<T>(first: T, xs: Seq<T>, cap: nat)
    requires
        cap > 0,
    ensures
        after_pushes(seq![first], xs, cap).len() == if xs.len() + 1 <= cap {
            xs.len() + 1
        } else {
            cap
        },
{
    lemma_window_fifo(seq![first], xs, cap);
}

/// A full window stays full: it holds `cap` items after any run of pushes.
pub proof fn lemma_window_stays_full<T>(s: Seq<T>, xs: Seq<T>, cap: nat)
    requires
        s.len() == cap,
    ensures
        after_pushes(s, xs, cap).len() == cap,
{
    lemma_window_fifo(s, xs, cap);
}

/// A window holding the most recent items pushed into it, oldest first.
pub struct Orbit<T> {
    buf: Vec<T>,
    head: usize,
    cap: usize,
}

impl<T> Orbit<T> {
    /// Position in `buf` of the `i`-th oldest item.
    spec fn slot(&self, i: int) -> int {
        if self.head + i < self.buf.len() {
            self.head + i
        } else {
            self.head + i - self.buf.len()
        }
    }

    /// The buffer's invariant: the cursor points at the oldest item, and stays at
    /// the front until the buffer has reached its capacity.
    pub closed spec fn well_formed(&self) -> bool {
        &&& self.cap > 0
        &&& self.buf.len() <= self.cap
        &&& self.buf.len() < self.cap ==> self.head == 0
        &&& self.buf.len() > 0 ==> self.head < self.buf.len()
        &&& self.buf.len() == 0 ==> self.head == 0
    }

    /// The largest number of items kept.
    pub closed spec fn cap(&self) -> nat {
        self.cap as nat
    }

    pub closed spec fn spec_view(&self) -> Seq<T> {
        Seq::new(self.buf.len() as nat, |i: int| self.buf@[self.slot(i)])
    }
}

impl<T> View for Orbit<T> {
    type V = Seq<T>;

    open spec fn view(&self) -> Seq<T> {
        self.spec_view()
    }
}

impl<T: Copy> Orbit<T> {
    /// An empty window that keeps at most `capacity` items.
    pub fn empty(capacity: usize) -> (r: Self)
        requires
            capacity > 0,
        ensures
            r.well_formed(),
            r@ == Seq::<T>::empty(),
            r.cap() == capacity,
    {
        let r = Orbit { buf: Vec::new(), head: 0, cap: capacity };
        assert(r@ =~= Seq::<T>::empty());
        r
    }

    /// A full window: `capacity` copies of `value`.
    pub fn filled(value: T, capacity: usize) -> (r: Self)
        requires
            capacity > 0,
        ensures
            r.well_formed(),
            r@ == Seq::new(capacity as nat, |i: int| value),
            r.cap() == capacity,
    {
        let mut buf: Vec<T> = Vec::new();
        let mut n: usize = 0;
        while n < capacity
            invariant
                n <= capacity,
                buf@ == Seq::new(n as nat, |i: int| value),
            decreases capacity - n,
        {
            buf.push(value);
            n = n + 1;
            assert(buf@ =~= Seq::new(n as nat, |i: int| value));
        }
        let r = Orbit { buf, head: 0, cap: capacity };
        assert(r@ =~= Seq::new(capacity as nat, |i: int| value));
        r
    }

    /// Appends `value` as the newest item, dropping the oldest one when the
    /// window was full.
    pub fn push(&mut self, value: T)
        requires
            old(self).well_formed(),
        ensures
            final(self).well_formed(),
            final(self).cap() == old(self).cap(),
            final(self)@ == window(old(self)@.push(value), old(self).cap()),
            final(self)@.len() > 0,
            final(self)@.last() == value,
    {
        let ghost pre = self@;
        if self.buf.len() < self.cap {
            self.buf.push(value);
            assert(self@ =~= window(pre.push(value), self.cap()));
        } else {
            let h = self.head;
            self.buf.set(h, value);
            self.head = if h + 1 == self.cap { 0 } else { h + 1 };
            assert(self@ =~= window(pre.push(value), self.cap()));
        }
    }

    /// Number of items held.
    pub fn len(&self) -> (r: usize)
        requires
            self.well_formed(),
        ensures
            r == self@.len(),
    {
        self.buf.len()
    }

    /// The largest number of items kept.
    pub fn capacity(&self) -> (r: usize)
        ensures
            r == self.cap(),
    {
        self.cap
    }

    /// The `i`-th oldest item.
    pub fn get(&self, i: usize) -> (r: T)
        requires
            self.well_formed(),
            i < self@.len(),
        ensures
            r == self@[i as int],
    {
        let k = self.buf.len() - self.head;
        if i < k {
            self.buf[self.head + i]
        } else {
            self.buf[i - k]
        }
    }

    /// The newest item.
    pub fn newest(&self) -> (r: T)
        requires
            self.well_formed(),
            self@.len() > 0,
        ensures
            r == self@.last(),
    {
        self.get(self.buf.len() - 1)
    }

    /// All items, oldest first.
    pub fn to_vec(&self) -> (r: Vec<T>)
        requires
            self.well_formed(),
        ensures
            r@ == self@,
    {
        let mut r: Vec<T> = Vec::new();
        let n = self.buf.len();
        let mut i: usize = 0;
        while i < n
            invariant
                self.well_formed(),
                n == self@.len(),
                i <= n,
                r@ == self@.subrange(0, i as int),
            decreases n - i,
        {
            r.push(self.get(i));
            i = i + 1;
            assert(r@ =~= self@.subrange(0, i as int));
        }
        assert(r@ =~= self@);
        r
    }
}

} // verus!
