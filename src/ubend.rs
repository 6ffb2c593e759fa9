use vstd::prelude::*;

use crate::error::SpotError;
use vstd::std_specs::iter::IteratorSpec;

verus! {

/// What a ring of capacity `cap` holds, oldest first, after `x` is pushed
/// into a ring that held `s`: `x` joins at the newest end and, once the ring
/// is full, the oldest value leaves.
pub open spec fn ring_push<T>(cap: nat, s: Seq<T>, x: T) -> Seq<T> {
    if s.len() < cap {
        s.push(x)
    } else {
        s.drop_first().push(x)
    }
}

/// What a ring of capacity `cap` holds after the values `xs` were pushed, in
/// order, into an empty one.
pub open spec fn ring_after_pushes<T>(cap: nat, xs: Seq<T>) -> Seq<T>
    decreases xs.len(),
{
    if xs.len() == 0 {
        Seq::empty()
    } else {
        ring_push(cap, ring_after_pushes(cap, xs.drop_last()), xs.last())
    }
}

/// The last `cap` values of `xs`, or all of them if there are fewer, in the
/// order in which they came.
pub open spec fn last_values<T>(cap: nat, xs: Seq<T>) -> Seq<T> {
    if xs.len() <= cap {
        xs
    } else {
        xs.subrange(xs.len() - cap, xs.len() as int)
    }
}

/// Pushing the values `xs` one by one into an empty ring of capacity `cap`
/// leaves it holding the last `cap` of them (all of them when there are
/// fewer) in the order in which they were pushed; so it holds as many values
/// as the smaller of `xs.len()` and `cap`, and once it is full its oldest
/// value, the next one to be evicted, is the one pushed `cap` pushes ago.
pub proof fn lemma_ring_keeps_last_pushed<T>(cap: nat, xs: Seq<T>)
    requires
        cap >= 1,
    ensures
        ring_after_pushes(cap, xs) == last_values(cap, xs),
        ring_after_pushes(cap, xs).len() == if xs.len() < cap {
            xs.len()
        } else {
            cap
        },
        xs.len() >= cap ==> ring_after_pushes(cap, xs)[0] == xs[xs.len() - cap],
    decreases xs.len(),
{
    if xs.len() > 0 {
        let prev = xs.drop_last();
        lemma_ring_keeps_last_pushed(cap, prev);
        assert(ring_after_pushes(cap, xs) =~= last_values(cap, xs));
    }
}

/// A ring buffer of fixed capacity: it fills up, then each new value
/// overwrites the oldest one.
#[derive(Debug, Clone)]
pub struct Ubend<T> {
    /// The slot that the next value goes into.
    cursor: usize,
    /// How many values the ring keeps.
    capacity: usize,
    /// The value that the last push overwrote, if any push did.
    last_erased_data: Option<T>,
    /// Whether every slot has been written.
    filled: bool,
    /// The slots; until the ring is filled they are the values pushed so far.
    data: Vec<T>,
}

impl<T: Copy> Ubend<T> {
    /// The storage is consistent with the cursor and the fill flag.
    pub closed spec fn well_formed(&self) -> bool {
        &&& self.capacity > 0
        &&& self.cursor < self.capacity
        &&& if self.filled {
            self.data@.len() == self.capacity
        } else {
            &&& self.data@.len() == self.cursor
            &&& self.last_erased_data is None
        }
    }

    /// The values held, oldest first.
    pub closed spec fn view(&self) -> Seq<T> {
        if self.filled {
            self.data@.subrange(self.cursor as int, self.capacity as int) + self.data@.subrange(
                0,
                self.cursor as int,
            )
        } else {
            self.data@
        }
    }

    pub closed spec fn spec_capacity(&self) -> nat {
        self.capacity as nat
    }

    pub closed spec fn spec_cursor(&self) -> nat {
        self.cursor as nat
    }

    pub closed spec fn spec_filled(&self) -> bool {
        self.filled
    }

    pub closed spec fn spec_last_erased(&self) -> Option<T> {
        self.last_erased_data
    }

    /// The slots in storage order.
    pub closed spec fn storage(&self) -> Seq<T> {
        self.data@
    }

    /// An empty ring that keeps up to `capacity` values; a capacity of zero
    /// is refused.
    pub fn new(capacity: usize) -> (r: Result<Self, SpotError>)
        ensures
            capacity == 0 <==> r is Err,
            r is Err ==> r->Err_0 == SpotError::MemoryAllocationFailed,
            r matches Ok(u) ==> {
                &&& u.well_formed()
                &&& u@ == Seq::<T>::empty()
                &&& u.spec_capacity() == capacity
                &&& u.spec_cursor() == 0
                &&& !u.spec_filled()
                &&& u.spec_last_erased() is None
            },
    {
        if capacity == 0 {
            return Err(SpotError::MemoryAllocationFailed);
        }
        Ok(Ubend { cursor: 0, capacity, last_erased_data: None, filled: false, data: Vec::new() })
    }

    /// A ring keeps at least one value, holds at most its capacity, and its
    /// cursor lies inside it.
    pub proof fn lemma_bounds(&self)
        requires
            self.well_formed(),
        ensures
            self.spec_capacity() >= 1,
            self.spec_cursor() < self.spec_capacity(),
            self@.len() <= self.spec_capacity(),
            self@.len() == if self.spec_filled() {
                self.spec_capacity()
            } else {
                self.spec_cursor()
            },
    {
    }

    /// Whether these parts describe a ring: a capacity of at least one, a
    /// cursor inside it and, until the ring is filled, exactly the values
    /// before the cursor and no overwritten value.
    pub open spec fn parts_describe_ring(
        capacity: usize,
        cursor: usize,
        filled: bool,
        data: Seq<T>,
        last_erased_data: Option<T>,
    ) -> bool {
        &&& capacity > 0
        &&& cursor < capacity
        &&& if filled {
            data.len() == capacity
        } else {
            &&& data.len() == cursor
            &&& last_erased_data is None
        }
    }

    /// Rebuilds a ring from the parts that its getters show, as a snapshot
    /// keeps them; nothing when the parts describe no ring.
    pub fn from_parts(
        capacity: usize,
        cursor: usize,
        filled: bool,
        data: Vec<T>,
        last_erased_data: Option<T>,
    ) -> (r: Option<Self>)
        ensures
            r is Some <==> Self::parts_describe_ring(
                capacity,
                cursor,
                filled,
                data@,
                last_erased_data,
            ),
            r matches Some(u) ==> {
                &&& u.well_formed()
                &&& u.spec_capacity() == capacity
                &&& u.spec_cursor() == cursor
                &&& u.spec_filled() == filled
                &&& u.storage() == data@
                &&& u.spec_last_erased() == last_erased_data
            },
    {
        if capacity == 0 || cursor >= capacity {
            return None;
        }
        if filled {
            if data.len() != capacity {
                return None;
            }
        } else {
            if data.len() != cursor || last_erased_data.is_some() {
                return None;
            }
        }
        Some(Ubend { cursor, capacity, last_erased_data, filled, data })
    }

    /// How many values the ring holds.
    pub fn size(&self) -> (r: usize)
        requires
            self.well_formed(),
        ensures
            r == self@.len(),
            r == if self.spec_filled() { self.spec_capacity() } else { self.spec_cursor() },
            r <= self.spec_capacity(),
            self.spec_capacity() >= 1,
    {
        if self.filled {
            self.capacity
        } else {
            self.cursor
        }
    }

    /// Adds `x` as the newest value and hands back the value it overwrote:
    /// the oldest one once the ring is full, nothing before.
    pub fn push(&mut self, x: T) -> (r: Option<T>)
        requires
            old(self).well_formed(),
        ensures
            final(self).well_formed(),
            final(self)@ == ring_push(old(self).spec_capacity(), old(self)@, x),
            final(self).spec_capacity() == old(self).spec_capacity(),
            final(self).spec_cursor() == (old(self).spec_cursor() + 1) % old(self).spec_capacity(),
            final(self).spec_filled() == (old(self).spec_filled() || old(self).spec_cursor() + 1
                == old(self).spec_capacity()),
            r == if old(self)@.len() == old(self).spec_capacity() {
                Some(old(self)@[0])
            } else {
                None::<T>
            },
            final(self).spec_last_erased() == if r is Some {
                r
            } else {
                old(self).spec_last_erased()
            },
    {
        let ghost before = self@;
        let ghost cap = self.capacity as int;
        let ghost cur = self.cursor as int;
        if self.filled {
            let erased = self.data[self.cursor];
            self.last_erased_data = Some(erased);
            self.data.set(self.cursor, x);
        } else {
            self.data.push(x);
        }
        if self.cursor == self.capacity - 1 {
            self.cursor = 0;
            self.filled = true;
        } else {
            self.cursor = self.cursor + 1;
        }
        proof {
            if cur + 1 == cap {
                vstd::arithmetic::div_mod::lemma_mod_self_0(cap);
            } else {
                vstd::arithmetic::div_mod::lemma_small_mod((cur + 1) as nat, cap as nat);
            }
            if old(self).filled {
                assert(before[0] == old(self).data@[cur]);
                assert(self@ =~= ring_push(cap as nat, before, x));
            } else {
                assert(self@ =~= ring_push(cap as nat, before, x));
            }
        }
        self.last_erased_data
    }

    /// The `index`-th value held, counting from the oldest; nothing when
    /// fewer values are held.
    pub fn get(&self, index: usize) -> (r: Option<T>)
        requires
            self.well_formed(),
        ensures
            r == if index < self@.len() {
                Some(self@[index as int])
            } else {
                None::<T>
            },
    {
        let size = self.size();
        if index >= size {
            return None;
        }
        if !self.filled {
            Some(self.data[index])
        } else {
            let to_end = self.capacity - self.cursor;
            if index < to_end {
                Some(self.data[self.cursor + index])
            } else {
                Some(self.data[index - to_end])
            }
        }
    }

    /// The slots in storage order: the values pushed so far until the ring
    /// is filled, then all of them, the oldest at the cursor.
    pub fn raw_data(&self) -> (r: &[T])
        requires
            self.well_formed(),
        ensures
            r@ == self.storage(),
            self@ == if self.spec_filled() {
                r@.subrange(self.spec_cursor() as int, r@.len() as int) + r@.subrange(
                    0,
                    self.spec_cursor() as int,
                )
            } else {
                r@
            },
            r@.len() == if self.spec_filled() { self.spec_capacity() } else { self.spec_cursor() },
    {
        self.data.as_slice()
    }

    /// How many values the ring keeps.
    pub fn capacity(&self) -> (r: usize)
        ensures
            r == self.spec_capacity(),
    {
        self.capacity
    }

    /// Whether the ring has been filled once.
    pub fn is_filled(&self) -> (r: bool)
        ensures
            r == self.spec_filled(),
    {
        self.filled
    }

    /// The slot that the next value goes into.
    pub fn cursor(&self) -> (r: usize)
        ensures
            r == self.spec_cursor(),
    {
        self.cursor
    }

    /// The value that the last push overwrote; nothing before the ring was
    /// filled.
    pub fn last_erased_data(&self) -> (r: Option<T>)
        ensures
            r == self.spec_last_erased(),
    {
        self.last_erased_data
    }

    /// The values held, oldest first.
    pub fn data(&self) -> (r: Vec<T>)
        requires
            self.well_formed(),
        ensures
            r@ == self@,
    {
        let size = self.size();
        let mut out: Vec<T> = Vec::new();
        let mut i: usize = 0;
        while i < size
            invariant
                self.well_formed(),
                size == self@.len(),
                i <= size,
                out@ == self@.subrange(0, i as int),
            decreases size - i,
        {
            let v = self.get(i);
            out.push(v.unwrap());
            i = i + 1;
            assert(out@ =~= self@.subrange(0, i as int));
        }
        assert(out@ =~= self@);
        out
    }

    /// The values held, oldest first, as an iterator that owns them.
    pub fn iter(&self) -> (r: std::vec::IntoIter<T>)
        requires
            self.well_formed(),
        ensures
            r.remaining() == self@,
    {
        self.data().into_iter()
    }
}

} // verus!
