use vstd::prelude::*;

verus! {

/// A small ring queue of `N` slots.
///
/// One slot always stays unused, so the queue holds at most `N - 1` items.
/// The ring counters are `u8`, so `N` is between 2 and 255.
pub struct Queue<T: Copy, const N: usize> {
    data: [T; N],
    head: u8,
    tail: u8,
}

/// The sizes for which the `u8` ring counters work: at least two slots, at most 255.
pub open spec fn valid_capacity(n: usize) -> bool {
    2 <= n <= 255
}

/// Advancing a counter on a ring of `n` slots.
proof fn lemma_ring_next(t: u8, n: usize)
    requires
        valid_capacity(n),
        t < n,
    ensures
        ((t + 1) as u8 % (n as u8)) as int == (if t + 1 < n { t + 1 } else { 0 }),
{
    if t + 1 < n {
        vstd::arithmetic::div_mod::lemma_small_mod((t + 1) as nat, n as nat);
    } else {
        vstd::arithmetic::div_mod::lemma_mod_self_0(n as int);
    }
}

impl<T: Copy, const N: usize> Queue<T, N> {
    #[verifier::type_invariant]
    spec fn inv(self) -> bool {
        &&& valid_capacity(N)
        &&& self.head < N
        &&& self.tail < N
    }

    /// Number of stored items.
    spec fn count(self) -> int {
        if self.head >= self.tail {
            self.head - self.tail
        } else {
            self.head + N - self.tail
        }
    }

    /// The backing slots, in storage order.
    pub closed spec fn slots(self) -> Seq<T> {
        self.data@
    }

    /// The slot of the `i`-th oldest item.
    spec fn slot(self, i: int) -> int {
        if self.tail + i < N {
            self.tail + i
        } else {
            self.tail + i - N
        }
    }

    /// The stored items, oldest first.
    closed spec fn items(self) -> Seq<T> {
        Seq::new(self.count() as nat, |i: int| self.data@[self.slot(i)])
    }

    /// The slot that the next pushed item goes to.
    pub closed spec fn head_slot(self) -> int {
        self.head as int
    }

    /// The number of slots, which bounds the content to `N - 1` items.
    pub open spec fn capacity() -> nat {
        (N - 1) as nat
    }

    /// A queue over the given backing storage, which starts empty.
    pub fn new(data: [T; N]) -> (q: Self)
        requires
            valid_capacity(N),
        ensures
            q@ == Seq::<T>::empty(),
            q.slots() == data@,
            q.head_slot() == 0,
    {
        let q = Queue { data, head: 0u8, tail: 0u8 };
        assert(q@ =~= Seq::<T>::empty());
        q
    }

    /// Append `value`; when the queue is full the oldest item is dropped first.
    pub fn push(&mut self, value: T)
        ensures
            final(self).slots() == old(self).slots().update(old(self).head_slot(), value),
            final(self).head_slot() == (old(self).head_slot() + 1) % (N as int),
            old(self)@.len() < Self::capacity() ==> final(self)@ == old(self)@.push(value),
            old(self)@.len() == Self::capacity() ==> final(self)@ == old(self)@.drop_first().push(
                value,
            ),
    {
        proof {
            use_type_invariant(&*self);
        }
        let ghost before = self@;
        let n = N as u8;
        if self.is_full() {
            proof {
                lemma_ring_next(self.tail, N);
            }
            self.tail = (self.tail + 1) % n;
        }
        let ghost mid = self@;
        let h = self.head;
        self.data[h as usize] = value;
        proof {
            lemma_ring_next(h, N);
        }
        self.head = (self.head + 1) % n;
        proof {
            if h + 1 < N {
                vstd::arithmetic::div_mod::lemma_small_mod((h + 1) as nat, N as nat);
            } else {
                vstd::arithmetic::div_mod::lemma_mod_self_0(N as int);
            }
            assert(mid.len() < N - 1);
            if before.len() == N - 1 {
                assert(mid =~= before.drop_first());
            } else {
                assert(mid =~= before);
            }
            assert(self@.len() == mid.len() + 1);
            assert forall|i: int| 0 <= i < mid.len() implies self@[i] == mid[i] by {
                assert(self.slot(i) != h as int);
            }
            assert(self@[mid.len() as int] == value);
            assert(self@ =~= mid.push(value));
        }
    }

    /// Remove and return the oldest item.
    pub fn pop(&mut self) -> (value: T)
        requires
            old(self)@.len() > 0,
        ensures
            value == old(self)@[0],
            final(self)@ == old(self)@.drop_first(),
            final(self).slots() == old(self).slots(),
            final(self).head_slot() == old(self).head_slot(),
    {
        proof {
            use_type_invariant(&*self);
        }
        let ghost before = self@;
        let value = self.data[self.tail as usize];
        proof {
            lemma_ring_next(self.tail, N);
        }
        self.tail = (self.tail + 1) % (N as u8);
        proof {
            assert(self@ =~= before.drop_first());
        }
        value
    }

    /// The backing storage, in slot order.
    pub fn data(&self) -> (d: &[T; N])
        ensures
            d@ == self.slots(),
    {
        &self.data
    }

    /// Whether the queue holds `N - 1` items.
    pub fn is_full(&self) -> (full: bool)
        ensures
            full == (self@.len() == Self::capacity()),
    {
        proof {
            use_type_invariant(self);
        }
        self.distance() == (N - 1) as u8
    }

    /// How far the head is ahead of the tail on the ring.
    fn distance(&self) -> (d: u8)
        ensures
            d == self.count(),
    {
        proof {
            use_type_invariant(self);
        }
        if self.head >= self.tail {
            self.head - self.tail
        } else {
            (N as u8) - (self.tail - self.head)
        }
    }

    /// Whether the queue holds no item.
    pub fn is_empty(&self) -> (empty: bool)
        ensures
            empty == (self@.len() == 0),
    {
        proof {
            use_type_invariant(self);
        }
        self.head == self.tail
    }

    /// The number of items held.
    pub fn size(&self) -> (n: u8)
        ensures
            n == self@.len(),
            n <= Self::capacity(),
    {
        proof {
            use_type_invariant(self);
        }
        self.distance()
    }

    /// Drop every item.
    pub fn clear(&mut self)
        ensures
            final(self)@ == Seq::<T>::empty(),
            final(self).slots() == old(self).slots(),
            final(self).head_slot() == 0,
    {
        proof {
            use_type_invariant(&*self);
        }
        self.head = 0;
        self.tail = 0;
        assert(self@ =~= Seq::<T>::empty());
    }
}

impl<T: Copy, const N: usize> View for Queue<T, N> {
    type V = Seq<T>;

    closed spec fn view(&self) -> Seq<T> {
        self.items()
    }
}

} // verus!
