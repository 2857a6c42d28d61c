//! Fixed-capacity circular byte queue.

use vstd::prelude::*;

verus! {

/// Position `steps` slots after `start` in a ring of `size` slots.
pub open spec fn wrap(start: int, steps: int, size: int) -> int {
    if start + steps < size {
        start + steps
    } else {
        start + steps - size
    }
}

/// Forward distance from `read` to `write` in a ring of `size` slots.
pub open spec fn forward_distance(read: int, write: int, size: int) -> int {
    if write >= read {
        write - read
    } else {
        size - read + write
    }
}

/// Contents of a queue of `size` slots after writing `value` to contents `s`:
/// the byte is appended unless that would fill the last free slot.
pub open spec fn after_write(s: Seq<u8>, size: int, value: u8) -> Seq<u8> {
    if s.len() + 1 < size {
        s.push(value)
    } else {
        s
    }
}

/// Contents of a queue after one read from contents `s`.
pub open spec fn after_read(s: Seq<u8>) -> Seq<u8> {
    if s.len() > 0 {
        s.drop_first()
    } else {
        s
    }
}

proof fn lemma_wrap_is_mod(x: int, n: int)
    requires
        n > 0,
        0 <= x < 2 * n,
    ensures
        x % n == (if x < n { x } else { x - n }),
{
    if x < n {
        vstd::arithmetic::div_mod::lemma_small_mod(x as nat, n as nat);
    } else {
        vstd::arithmetic::div_mod::lemma_small_mod((x - n) as nat, n as nat);
        vstd::arithmetic::div_mod::lemma_mod_add_multiples_vanish(x - n, n);
    }
}

/// One call on a queue: a write of a byte, or a read.
pub enum Op {
    Write(u8),
    Read,
}

/// Contents of an initially empty queue of `size` slots after the calls `ops`.
pub open spec fn contents_after(size: int, ops: Seq<Op>) -> Seq<u8>
    decreases ops.len(),
{
    if ops.len() == 0 {
        Seq::empty()
    } else {
        let before = contents_after(size, ops.drop_last());
        match ops.last() {
            Op::Write(value) => after_write(before, size, value),
            Op::Read => after_read(before),
        }
    }
}

/// The bytes that the writes among `ops` stored, in call order.
pub open spec fn accepted(size: int, ops: Seq<Op>) -> Seq<u8>
    decreases ops.len(),
{
    if ops.len() == 0 {
        Seq::empty()
    } else {
        let before = contents_after(size, ops.drop_last());
        let earlier = accepted(size, ops.drop_last());
        match ops.last() {
            Op::Write(value) => if before.len() + 1 < size {
                earlier.push(value)
            } else {
                earlier
            },
            Op::Read => earlier,
        }
    }
}

/// The bytes that the reads among `ops` returned, in call order.
pub open spec fn delivered(size: int, ops: Seq<Op>) -> Seq<u8>
    decreases ops.len(),
{
    if ops.len() == 0 {
        Seq::empty()
    } else {
        let before = contents_after(size, ops.drop_last());
        let earlier = delivered(size, ops.drop_last());
        match ops.last() {
            Op::Write(_) => earlier,
            Op::Read => if before.len() > 0 {
                earlier.push(before[0])
            } else {
                earlier
            },
        }
    }
}

/// All bytes offered to the writes among `ops`, in call order.
pub open spec fn offered(ops: Seq<Op>) -> Seq<u8>
    decreases ops.len(),
{
    if ops.len() == 0 {
        Seq::empty()
    } else {
        match ops.last() {
            Op::Write(value) => offered(ops.drop_last()).push(value),
            Op::Read => offered(ops.drop_last()),
        }
    }
}

/// First in, first out: whatever the calls, the bytes read so far followed by
/// the bytes still queued are exactly the bytes stored, in the order they were
/// stored. Nothing is lost, repeated or reordered.
pub proof fn lemma_fifo(size: int, ops: Seq<Op>)
    ensures
        delivered(size, ops) + contents_after(size, ops) == accepted(size, ops),
    decreases ops.len(),
{
    if ops.len() == 0 {
        assert(Seq::<u8>::empty() + Seq::<u8>::empty() =~= Seq::<u8>::empty());
    } else {
        lemma_fifo(size, ops.drop_last());
        let before = contents_after(size, ops.drop_last());
        let read = delivered(size, ops.drop_last());
        match ops.last() {
            Op::Write(value) => {
                if before.len() + 1 < size {
                    assert(read + before.push(value) =~= (read + before).push(value));
                }
            },
            Op::Read => {
                if before.len() > 0 {
                    assert(read.push(before[0]) + before.drop_first() =~= read + before);
                }
            },
        }
    }
}

/// With `k` writes, `k` at most `size - 1`, every write is stored, and after
/// `j` reads that returned a byte the queue holds `k - j` bytes.
pub proof fn lemma_len_after_calls(size: int, ops: Seq<Op>)
    requires
        offered(ops).len() + 1 <= size,
    ensures
        accepted(size, ops) == offered(ops),
        delivered(size, ops).len() <= offered(ops).len(),
        contents_after(size, ops).len() == offered(ops).len() - delivered(size, ops).len(),
    decreases ops.len(),
{
    lemma_fifo(size, ops);
    if ops.len() > 0 {
        lemma_len_after_calls(size, ops.drop_last());
        lemma_fifo(size, ops.drop_last());
    }
}

/// A byte queue over `SIZE` slots with a read index and a write index.
/// One slot always stays free, so at most `SIZE - 1` bytes are queued.
pub struct RingBuffer<const SIZE: usize> {
    read: usize,
    write: usize,
    buffer: [u8; SIZE],
}

impl<const SIZE: usize> View for RingBuffer<SIZE> {
    type V = Seq<u8>;

    /// The queued bytes, oldest first.
    closed spec fn view(&self) -> Seq<u8> {
        Seq::new(
            forward_distance(self.read as int, self.write as int, SIZE as int) as nat,
            |i: int| self.buffer@[wrap(self.read as int, i, SIZE as int)],
        )
    }
}

impl<const SIZE: usize> RingBuffer<SIZE> {
    /// Both indices lie inside the storage.
    pub closed spec fn wf(&self) -> bool {
        &&& SIZE > 0
        &&& self.read < SIZE
        &&& self.write < SIZE
    }

    /// Slot that the next read takes from.
    pub closed spec fn read_index(&self) -> int {
        self.read as int
    }

    /// Slot that the next write stores to.
    pub closed spec fn write_index(&self) -> int {
        self.write as int
    }

    /// The number of queued bytes is the forward distance between the indices,
    /// and never reaches `SIZE`.
    pub proof fn lemma_len_is_distance(&self)
        requires
            self.wf(),
        ensures
            0 <= self.read_index() < SIZE,
            0 <= self.write_index() < SIZE,
            self@.len() == forward_distance(self.read_index(), self.write_index(), SIZE as int),
            self@.len() < SIZE,
            self@.len() == 0 <==> self.read_index() == self.write_index(),
            self@.len() + 1 == SIZE <==> wrap(self.write_index(), 1, SIZE as int)
                == self.read_index(),
    {
    }

    /// An empty queue.
    pub fn new() -> (r: Self)
        requires
            SIZE > 0,
        ensures
            r.wf(),
            r@ == Seq::<u8>::empty(),
            r.read_index() == 0,
            r.write_index() == 0,
    {
        let r = Self { read: 0, write: 0, buffer: [0u8;SIZE] };
        assert(r@ =~= Seq::<u8>::empty());
        r
    }

    /// Takes the oldest byte, or reports that the queue is empty.
    pub fn read(&mut self) -> (r: Option<u8>)
        requires
            old(self).wf(),
        ensures
            final(self).wf(),
            r == (if old(self)@.len() > 0 {
                Some(old(self)@[0])
            } else {
                None
            }),
            final(self)@ == after_read(old(self)@),
            final(self).write_index() == old(self).write_index(),
            final(self).read_index() == (if r.is_some() {
                wrap(old(self).read_index(), 1, SIZE as int)
            } else {
                old(self).read_index()
            }),
            r.is_none() ==> *final(self) == *old(self),
    {
        if self.read == self.write {
            None
        } else {
            let value = self.buffer[self.read];
            proof {
                lemma_wrap_is_mod(self.read + 1, SIZE as int);
            }
            self.read = (self.read + 1) % SIZE;
            assert(final(self)@ =~= old(self)@.drop_first());
            Some(value)
        }
    }

    /// Appends `value`, or reports that the queue is full.
    pub fn write(&mut self, value: u8) -> (r: Option<()>)
        requires
            old(self).wf(),
        ensures
            final(self).wf(),
            r.is_some() <==> old(self)@.len() + 1 < SIZE,
            final(self)@ == after_write(old(self)@, SIZE as int, value),
            final(self).read_index() == old(self).read_index(),
            final(self).write_index() == (if r.is_some() {
                wrap(old(self).write_index(), 1, SIZE as int)
            } else {
                old(self).write_index()
            }),
            r.is_none() ==> *final(self) == *old(self),
    {
        proof {
            lemma_wrap_is_mod(self.write + 1, SIZE as int);
        }
        let next_write = (self.write + 1) % SIZE;
        if next_write == self.read {
            None
        } else {
            self.buffer[self.write] = value;
            self.write = next_write;
            assert(final(self)@ =~= old(self)@.push(value));
            Some(())
        }
    }

    /// Whether nothing is queued.
    pub fn is_empty(&self) -> (r: bool)
        requires
            self.wf(),
        ensures
            r == (self@.len() == 0),
    {
        self.read == self.write
    }

    /// Whether only the one slot that always stays free is left.
    pub fn is_full(&self) -> (r: bool)
        requires
            self.wf(),
        ensures
            r == (self@.len() == SIZE - 1),
    {
        proof {
            lemma_wrap_is_mod(self.write + 1, SIZE as int);
        }
        (self.write + 1) % SIZE == self.read
    }

    /// Number of queued bytes.
    pub fn len(&self) -> (r: usize)
        requires
            self.wf(),
        ensures
            r == self@.len(),
            r < SIZE,
    {
        if self.write >= self.read {
            self.write - self.read
        } else {
            SIZE - self.read + self.write
        }
    }

    /// Appends every byte of `slice` in order, or none of them: when the queue
    /// cannot take them all it is left as it was and the result tells by how
    /// many bytes the request exceeds the free room.
    pub fn write_slice(&mut self, slice: &[u8]) -> (r: Result<(), usize>)
        requires
            old(self).wf(),
        ensures
            final(self).wf(),
            final(self).read_index() == old(self).read_index(),
            old(self)@.len() + slice@.len() >= SIZE ==> r is Err && r->Err_0 == old(self)@.len()
                + slice@.len() - SIZE + 1 && *final(self) == *old(self) && final(self).write_index() == old(
                self,
            ).write_index(),
            old(self)@.len() + slice@.len() < SIZE ==> r is Ok && final(self)@
                == old(self)@ + slice@ && final(self).write_index() == wrap(
                old(self).write_index(),
                slice@.len() as int,
                SIZE as int,
            ),
    {
        let room = SIZE - self.len();
        if slice.len() >= room {
            Err(slice.len() - room + 1)
        } else {
            let mut i: usize = 0;
            while i < slice.len()
                invariant
                    self.wf(),
                    i <= slice@.len(),
                    old(self)@.len() + slice@.len() < SIZE,
                    self@ == old(self)@ + slice@.subrange(0, i as int),
                    self.read_index() == old(self).read_index(),
                    self.write_index() == wrap(old(self).write_index(), i as int, SIZE as int),
                decreases slice@.len() - i,
            {
                let ghost before = self@;
                let _ = self.write(slice[i]);
                assert(self@ =~= old(self)@ + slice@.subrange(0, i + 1)) by {
                    assert(slice@.subrange(0, i + 1) =~= slice@.subrange(0, i as int).push(
                        slice@[i as int],
                    ));
                }
                i = i + 1;
            }
            assert(slice@.subrange(0, i as int) =~= slice@);
            Ok(())
        }
    }
}

} // verus!
