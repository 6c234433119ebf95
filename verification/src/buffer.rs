//! A single-threaded, fixed-capacity FIFO container over a fixed-length
//! backing store, with wrap-around read and write cursors.

use vstd::prelude::*;
use vstd::pervasive::VecAdditionalExecFns;

verus! {

/// The one failure of the buffer: a `write` was attempted while every slot
/// was occupied.
#[derive(Clone, Copy, Debug, PartialEq, Eq, Structural)]
pub struct BufferFullError;

/// What a push leaves as the contents: the value is appended unless the
/// buffer already holds `capacity` elements, in which case nothing changes.
pub open spec fn push_result<T>(contents: Seq<T>, capacity: nat, value: T) -> Seq<T> {
    if contents.len() < capacity {
        contents.push(value)
    } else {
        contents
    }
}

/// What a pop leaves as the contents: the oldest element is removed unless
/// the buffer is empty, in which case nothing changes.
pub open spec fn pop_result<T>(contents: Seq<T>) -> Seq<T> {
    if contents.len() == 0 {
        contents
    } else {
        contents.drop_first()
    }
}

/// What a pop returns: the oldest element, or the empty sentinel.
pub open spec fn popped_value<T>(contents: Seq<T>) -> Option<T> {
    if contents.len() == 0 {
        None
    } else {
        Some(contents.first())
    }
}

/// Wraps an index `i` in `[0, 2n)` back into `[0, n)`.
spec fn wrap_index(i: int, n: int) -> int {
    if i < n {
        i
    } else {
        i - n
    }
}

/// A bounded FIFO queue: a fixed-length sequence of slots, a read cursor, a
/// write cursor, and a count of occupied slots. Capacity is chosen at
/// construction and never changes; no slot is ever allocated afterwards.
pub struct CircularBuffer<T> {
    storage: Vec<Option<T>>,
    read_index: usize,
    write_index: usize,
    count: usize,
}

impl<T> View for CircularBuffer<T> {
    type V = Seq<T>;

    /// The abstract contents, oldest first: the value the next `read`
    /// returns is `self@[0]`.
    closed spec fn view(&self) -> Seq<T> {
        Seq::new(
            self.count as nat,
            |i: int|
                self.storage@[wrap_index(
                    self.read_index + i,
                    self.storage@.len() as int,
                )].unwrap(),
        )
    }
}

impl<T> CircularBuffer<T> {
    /// The fixed number of slots.
    pub closed spec fn capacity(&self) -> nat {
        self.storage@.len()
    }

    /// Well-formedness: the cursors lie in `[0, capacity)`, the write cursor
    /// stands `count` slots past the read cursor modulo the capacity, the
    /// `count` slots from the read cursor on hold values, and every other
    /// slot is empty.
    pub closed spec fn wf(&self) -> bool {
        let n = self.storage@.len() as int;
        &&& self.count <= n
        &&& if n == 0 {
            self.read_index == 0 && self.write_index == 0
        } else {
            self.read_index < n && self.write_index == wrap_index(
                self.read_index + self.count,
                n,
            )
        }
        &&& forall|i: int|
            0 <= i < self.count ==> (#[trigger] self.storage@[wrap_index(
                self.read_index + i,
                n,
            )]) is Some
        &&& forall|i: int|
            self.count <= i < n ==> (#[trigger] self.storage@[wrap_index(
                self.read_index + i,
                n,
            )]) is None
    }
}

impl<T: Copy> CircularBuffer<T> {
    /// A fresh buffer with `capacity` slots: all slots empty, both cursors
    /// at zero. Construction cannot fail.
    pub fn new(capacity: usize) -> (result: Self)
        ensures
            result.wf(),
            result.capacity() == capacity,
            result@ == Seq::<T>::empty(),
    {
        let mut storage: Vec<Option<T>> = Vec::new();
        let mut i: usize = 0;
        while i < capacity
            invariant
                i <= capacity,
                storage@.len() == i,
                forall|j: int| 0 <= j < i ==> (#[trigger] storage@[j]) is None,
            decreases capacity - i,
        {
            storage.push(None);
            i = i + 1;
        }
        let result = CircularBuffer { storage, read_index: 0, write_index: 0, count: 0 };
        proof {
            assert(result@ =~= Seq::<T>::empty());
        }
        result
    }

    /// Stores `value` at the write cursor and advances it, unless the buffer
    /// is full, in which case the buffer is left untouched and the failure is
    /// reported to the caller.
    pub fn write(&mut self, value: T) -> (result: Result<(), BufferFullError>)
        requires
            old(self).wf(),
        ensures
            final(self).wf(),
            final(self).capacity() == old(self).capacity(),
            final(self)@ == push_result(old(self)@, old(self).capacity(), value),
            result is Ok <==> old(self)@.len() < old(self).capacity(),
            old(self)@.len() == old(self).capacity() ==> *final(self) == *old(self),
    {
        if self.count >= self.storage.len() {
            return Err(BufferFullError);
        }
        let n = self.storage.len();
        self.storage.set(self.write_index, Some(value));
        proof {
            if self.write_index + 1 == n {
                vstd::arithmetic::div_mod::lemma_mod_self_0(n as int);
            } else {
                vstd::arithmetic::div_mod::lemma_small_mod((self.write_index + 1) as nat, n as nat);
            }
        }
        self.write_index = (self.write_index + 1) % n;
        self.count = self.count + 1;
        proof {
            assert(self@ =~= old(self)@.push(value));
        }
        Ok(())
    }

    /// Takes the value out of the slot at the read cursor, leaving that slot
    /// empty, and advances the cursor; on an empty buffer it returns the
    /// empty sentinel and changes nothing.
    pub fn read(&mut self) -> (result: Option<T>)
        requires
            old(self).wf(),
        ensures
            final(self).wf(),
            final(self).capacity() == old(self).capacity(),
            final(self)@ == pop_result(old(self)@),
            result == popped_value(old(self)@),
            old(self)@.len() == 0 ==> *final(self) == *old(self),
    {
        if self.count == 0 {
            return None;
        }
        let n = self.storage.len();
        let value = self.storage[self.read_index];
        self.storage.set(self.read_index, None);
        proof {
            if self.read_index + 1 == n {
                vstd::arithmetic::div_mod::lemma_mod_self_0(n as int);
            } else {
                vstd::arithmetic::div_mod::lemma_small_mod((self.read_index + 1) as nat, n as nat);
            }
        }
        self.read_index = (self.read_index + 1) % n;
        self.count = self.count - 1;
        proof {
            let len = n as int;
            let r0 = old(self).read_index as int;
            let r1 = self.read_index as int;
            assert forall|i: int| 0 <= i < self.count implies (#[trigger] self.storage@[
                wrap_index(r1 + i, len)]) is Some by {
                assert(wrap_index(r1 + i, len) == wrap_index(r0 + (i + 1), len));
                assert(old(self).storage@[wrap_index(r0 + (i + 1), len)] is Some);
            }
            assert forall|i: int| self.count <= i < len implies (#[trigger] self.storage@[
                wrap_index(r1 + i, len)]) is None by {
                if i == len - 1 {
                    assert(wrap_index(r1 + i, len) == r0);
                } else {
                    assert(wrap_index(r1 + i, len) == wrap_index(r0 + (i + 1), len));
                    assert(old(self).storage@[wrap_index(r0 + (i + 1), len)] is None);
                    assert(wrap_index(r0 + (i + 1), len) != r0);
                }
            }
            assert(self@ =~= old(self)@.drop_first());
        }
        value
    }

    /// Whether the buffer currently holds no element. Pure query: the result
    /// is a function of the contents alone, so repeated calls without an
    /// intervening mutation agree.
    pub fn is_empty(&self) -> (result: bool)
        ensures
            result == (self@.len() == 0),
    {
        self.count == 0
    }

    /// Whether every slot is occupied. Pure query: the result is a function
    /// of the contents and the capacity alone, so repeated calls without an
    /// intervening mutation agree.
    pub fn is_full(&self) -> (result: bool)
        requires
            self.wf(),
        ensures
            result == (self@.len() == self.capacity()),
    {
        self.count >= self.storage.len()
    }

    /// The number of elements currently held. Pure query.
    pub fn len(&self) -> (result: usize)
        ensures
            result == self@.len(),
    {
        self.count
    }
}

} // verus!
