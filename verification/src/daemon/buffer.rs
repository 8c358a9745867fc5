//! Ring buffer for terminal output history.
//!
//! A [`RingBuffer`] retains the most recent `capacity` bytes written to it,
//! so that a consumer attaching late still sees what happened before.

use vstd::prelude::*;

verus! {

/// The last `n` elements of `s`, or all of `s` when it is not longer than `n`.
pub open spec fn keep_last(s: Seq<u8>, n: nat) -> Seq<u8> {
    if s.len() <= n {
        s
    } else {
        s.subrange(s.len() - n, s.len() as int)
    }
}

/// What a buffer of capacity `capacity` retains after the chunks of `writes`
/// have been written to it one after the other, starting from `contents`.
pub open spec fn replay(contents: Seq<u8>, capacity: nat, writes: Seq<Seq<u8>>) -> Seq<u8>
    decreases writes.len(),
{
    if writes.len() == 0 {
        contents
    } else {
        replay(keep_last(contents + writes[0], capacity), capacity, writes.drop_first())
    }
}

/// All chunks of `writes` laid end to end.
pub open spec fn concat_all(writes: Seq<Seq<u8>>) -> Seq<u8>
    decreases writes.len(),
{
    if writes.len() == 0 {
        Seq::empty()
    } else {
        writes[0] + concat_all(writes.drop_first())
    }
}

/// Truncating twice is truncating once: what survives of `a + b` does not
/// depend on whether `a` had already been cut down to its last `n` bytes.
pub proof fn lemma_keep_last_absorbs(a: Seq<u8>, b: Seq<u8>, n: nat)
    ensures
        keep_last(keep_last(a, n) + b, n) == keep_last(a + b, n),
{
    let lhs = keep_last(keep_last(a, n) + b, n);
    let rhs = keep_last(a + b, n);
    if a.len() <= n {
        assert(keep_last(a, n) == a);
    } else {
        let cut = keep_last(a, n);
        assert(cut.len() == n);
        assert(lhs.len() == rhs.len());
        assert forall|i: int| 0 <= i < lhs.len() implies lhs[i] == rhs[i] by {
            if b.len() >= n {
            } else {
            }
        }
        assert(lhs =~= rhs);
    }
}

/// Generalisation of the ring buffer law to a buffer that already holds the
/// last `capacity` bytes of an earlier stream `before`.
pub proof fn lemma_replay_from(before: Seq<u8>, capacity: nat, writes: Seq<Seq<u8>>)
    ensures
        replay(keep_last(before, capacity), capacity, writes) == keep_last(
            before + concat_all(writes),
            capacity,
        ),
    decreases writes.len(),
{
    if writes.len() == 0 {
        assert(before + concat_all(writes) =~= before);
    } else {
        let first = writes[0];
        let rest = writes.drop_first();
        lemma_keep_last_absorbs(before, first, capacity);
        lemma_replay_from(before + first, capacity, rest);
        assert((before + first) + concat_all(rest) =~= before + concat_all(writes));
    }
}

/// The ring buffer law: after any sequence of writes to an empty buffer, the
/// buffer holds the final `capacity` bytes of the concatenation of the
/// writes, and the whole concatenation when that is shorter than `capacity`.
pub proof fn lemma_ring_buffer_law(capacity: nat, writes: Seq<Seq<u8>>)
    ensures
        replay(Seq::empty(), capacity, writes) == keep_last(concat_all(writes), capacity),
        concat_all(writes).len() >= capacity ==> replay(Seq::empty(), capacity, writes)
            == concat_all(writes).subrange(
            concat_all(writes).len() - capacity,
            concat_all(writes).len() as int,
        ),
        concat_all(writes).len() < capacity ==> replay(Seq::empty(), capacity, writes)
            == concat_all(writes),
{
    let s = concat_all(writes);
    assert(keep_last(Seq::<u8>::empty(), capacity) == Seq::<u8>::empty());
    lemma_replay_from(Seq::empty(), capacity, writes);
    assert(Seq::<u8>::empty() + s =~= s);
    if s.len() == capacity {
        assert(s.subrange(0, s.len() as int) =~= s);
    }
}

/// Oversize write: whatever a buffer held, once a chunk at least as long as
/// the capacity is written to it, it holds the last `capacity` bytes of
/// that chunk and nothing older.
pub proof fn lemma_oversize_write(before: Seq<u8>, data: Seq<u8>, capacity: nat)
    requires
        data.len() >= capacity,
    ensures
        keep_last(before + data, capacity) == data.subrange(
            data.len() - capacity,
            data.len() as int,
        ),
        keep_last(before + data, capacity).len() == capacity,
{
    assert(keep_last(before + data, capacity) =~= data.subrange(
        data.len() - capacity,
        data.len() as int,
    ));
}

/// A fixed-capacity ring buffer for terminal output.
///
/// Once the buffer is full, new bytes overwrite the oldest ones, so memory
/// stays bounded while the most recent output remains available.
#[derive(Debug)]
pub struct RingBuffer {
    /// The underlying storage; grows up to `capacity` and then stays full.
    data: Vec<u8>,
    /// Maximum number of bytes retained.
    capacity: usize,
    /// Where the next byte goes.
    write_pos: usize,
    /// Total bytes ever written since creation or the last `clear`.
    total_written: usize,
}

impl View for RingBuffer {
    type V = Seq<u8>;

    /// The retained bytes, oldest first.
    closed spec fn view(&self) -> Seq<u8> {
        if self.total_written <= self.capacity {
            self.data@
        } else {
            self.data@.subrange(self.write_pos as int, self.data@.len() as int)
                + self.data@.subrange(0, self.write_pos as int)
        }
    }
}

impl RingBuffer {
    /// The representation invariant.
    pub closed spec fn wf(&self) -> bool {
        &&& self.capacity > 0
        &&& self.write_pos <= self.data@.len() <= self.capacity
        &&& self.total_written <= self.capacity ==> self.data@.len() == self.total_written
            && self.write_pos == self.total_written
        &&& self.total_written > self.capacity ==> self.data@.len() == self.capacity
    }

    pub closed spec fn spec_capacity(&self) -> usize {
        self.capacity
    }

    pub closed spec fn spec_total_written(&self) -> usize {
        self.total_written
    }

    pub open spec fn spec_len(&self) -> usize {
        if self.spec_total_written() <= self.spec_capacity() {
            self.spec_total_written()
        } else {
            self.spec_capacity()
        }
    }

    pub open spec fn spec_is_empty(&self) -> bool {
        self.spec_total_written() == 0
    }

    pub open spec fn spec_has_wrapped(&self) -> bool {
        self.spec_total_written() > self.spec_capacity()
    }

    /// A well-formed buffer has a positive capacity and retains exactly
    /// `min(total_written, capacity)` bytes.
    pub proof fn lemma_retained_length(&self)
        requires
            self.wf(),
        ensures
            self.spec_capacity() > 0,
            self@.len() == self.spec_len(),
    {
    }

    /// Create an empty buffer that retains up to `capacity` bytes.
    pub fn new(capacity: usize) -> (buffer: Self)
        requires
            capacity > 0,
        ensures
            buffer.wf(),
            buffer@ == Seq::<u8>::empty(),
            buffer.spec_capacity() == capacity,
            buffer.spec_total_written() == 0,
    {
        RingBuffer { data: Vec::with_capacity(capacity), capacity, write_pos: 0, total_written: 0 }
    }

    /// Append `data`, overwriting the oldest bytes once the buffer is full.
    ///
    /// Of a chunk longer than the capacity only the trailing `capacity`
    /// bytes are retained; `total_written` still grows by the full length.
    pub fn write(&mut self, data: &[u8])
        requires
            old(self).wf(),
            old(self).spec_total_written() + data@.len() <= usize::MAX,
        ensures
            final(self).wf(),
            final(self).spec_capacity() == old(self).spec_capacity(),
            final(self).spec_total_written() == old(self).spec_total_written() + data@.len(),
            final(self)@ == keep_last(old(self)@ + data@, old(self).spec_capacity() as nat),
            data@.len() >= old(self).spec_capacity() ==> final(self)@ == data@.subrange(
                data@.len() - old(self).spec_capacity(),
                data@.len() as int,
            ),
    {
        let full_len = data.len();
        if full_len == 0 {
            assert(old(self)@ + data@ =~= old(self)@);
            return ;
        }
        // Of an oversize chunk only the tail can survive.
        let skip = if full_len > self.capacity {
            full_len - self.capacity
        } else {
            0
        };
        let ghost before = self@;
        let ghost kept = data@.subrange(skip as int, full_len as int);
        let mut i = skip;
        while i < full_len
            invariant
                skip <= i <= full_len,
                full_len == data@.len(),
                full_len - skip <= self.capacity,
                self.capacity == old(self).capacity,
                self.capacity > 0,
                self.write_pos <= self.data@.len() <= self.capacity,
                kept == data@.subrange(skip as int, full_len as int),
                before == old(self)@,
                before.len() == old(self).spec_len(),
                self.total_written == old(self).total_written,
                self.total_written + full_len <= usize::MAX,
                // A buffer that was filled exactly, without overwriting, has its
                // write position at the end.
                self.total_written <= self.capacity && before.len() + (i - skip)
                    == self.capacity ==> self.write_pos == self.capacity,
                // The storage is a rotation of the last bytes of the stream so far.
                ({
                    let stream = before + kept.subrange(0, i - skip);
                    if self.data@.len() < self.capacity {
                        &&& self.write_pos == self.data@.len()
                        &&& self.data@ == stream
                    } else {
                        &&& stream.len() >= self.capacity
                        &&& self.data@.subrange(self.write_pos as int, self.capacity as int)
                            + self.data@.subrange(0, self.write_pos as int) == keep_last(
                            stream,
                            self.capacity as nat,
                        )
                    }
                }),
            decreases full_len - i,
        {
            let byte = data[i];
            let ghost stream = before + kept.subrange(0, i - skip);
            let ghost next = before + kept.subrange(0, i + 1 - skip);
            assert(next =~= stream.push(byte));
            if self.data.len() < self.capacity {
                self.data.push(byte);
                self.write_pos = self.data.len();
                proof {
                    if self.data@.len() == self.capacity {
                        assert(self.data@.subrange(self.write_pos as int, self.capacity as int)
                            + self.data@.subrange(0, self.write_pos as int) =~= self.data@);
                    }
                }
            } else {
                if self.write_pos >= self.capacity {
                    self.write_pos = 0;
                }
                let ghost prior = self.data@;
                let ghost at = self.write_pos as int;
                let ghost cap = self.capacity as int;
                assert(prior.subrange(at, cap) + prior.subrange(0, at) =~= keep_last(
                    stream,
                    self.capacity as nat,
                )) by {
                    if at == 0 {
                        // Either nothing changed or the position was moved from the end to the start.
                        assert(prior.subrange(cap, cap) + prior.subrange(0, cap) =~= prior.subrange(
                            0,
                            cap,
                        ) + prior.subrange(0, 0));
                    }
                }
                self.data.set(self.write_pos, byte);
                self.write_pos = self.write_pos + 1;
                proof {
                    let now = self.data@;
                    let lhs = now.subrange(at + 1, cap) + now.subrange(0, at + 1);
                    let old_rot = prior.subrange(at, cap) + prior.subrange(0, at);
                    let rhs = keep_last(next, self.capacity as nat);
                    assert(lhs.len() == rhs.len());
                    assert forall|k: int| 0 <= k < lhs.len() implies lhs[k] == rhs[k] by {
                        if k < cap - 1 {
                            assert(old_rot[k + 1] == keep_last(stream, self.capacity as nat)[k + 1]);
                        }
                    }
                    assert(lhs =~= rhs);
                }
            }
            i = i + 1;
        }
        self.total_written = self.total_written + full_len;
        proof {
            let cap = self.capacity as nat;
            assert(kept.subrange(0, full_len - skip) =~= kept);
            lemma_keep_last_tail(before, data@, cap);
            if data@.len() >= cap {
                assert(keep_last(before + data@, cap) =~= data@.subrange(
                    data@.len() - cap,
                    data@.len() as int,
                ));
            }
        }
    }

    /// The retained bytes in chronological order, oldest first.
    pub fn read_all(&self) -> (bytes: Vec<u8>)
        requires
            self.wf(),
        ensures
            bytes@ == self@,
            bytes@.len() == self.spec_len(),
    {
        let mut result: Vec<u8> = Vec::new();
        if self.data.len() == 0 {
            return result;
        }
        if !self.has_wrapped() {
            let mut i: usize = 0;
            while i < self.write_pos
                invariant
                    i <= self.write_pos <= self.data@.len(),
                    result@ == self.data@.subrange(0, i as int),
                decreases self.write_pos - i,
            {
                result.push(self.data[i]);
                i = i + 1;
                assert(self.data@.subrange(0, i as int) =~= self.data@.subrange(0, i - 1).push(
                    self.data@[i - 1],
                ));
            }
            assert(self.data@.subrange(0, self.write_pos as int) =~= self.data@);
            result
        } else {
            let n = self.data.len();
            let mut i: usize = self.write_pos;
            while i < n
                invariant
                    self.write_pos <= i <= n,
                    n == self.data@.len(),
                    result@ == self.data@.subrange(self.write_pos as int, i as int),
                decreases n - i,
            {
                result.push(self.data[i]);
                i = i + 1;
                assert(self.data@.subrange(self.write_pos as int, i as int)
                    =~= self.data@.subrange(self.write_pos as int, i - 1).push(self.data@[i - 1]));
            }
            let mut j: usize = 0;
            while j < self.write_pos
                invariant
                    j <= self.write_pos <= n,
                    n == self.data@.len(),
                    result@ == self.data@.subrange(self.write_pos as int, n as int)
                        + self.data@.subrange(0, j as int),
                decreases self.write_pos - j,
            {
                result.push(self.data[j]);
                j = j + 1;
                assert(self.data@.subrange(0, j as int) =~= self.data@.subrange(0, j - 1).push(
                    self.data@[j - 1],
                ));
                assert(result@ =~= self.data@.subrange(self.write_pos as int, n as int)
                    + self.data@.subrange(0, j as int));
            }
            result
        }
    }

    /// The number of bytes currently retained.
    #[verifier::when_used_as_spec(spec_len)]
    pub fn len(&self) -> (n: usize)
        ensures
            n == self.spec_len(),
    {
        if self.total_written <= self.capacity {
            self.total_written
        } else {
            self.capacity
        }
    }

    /// Whether nothing has been written since creation or the last `clear`.
    #[verifier::when_used_as_spec(spec_is_empty)]
    pub fn is_empty(&self) -> (empty: bool)
        ensures
            empty == self.spec_is_empty(),
    {
        self.total_written == 0
    }

    /// Whether more has been written than the buffer can retain.
    #[verifier::when_used_as_spec(spec_has_wrapped)]
    pub fn has_wrapped(&self) -> (wrapped: bool)
        ensures
            wrapped == self.spec_has_wrapped(),
            wrapped <==> self.spec_total_written() > self.spec_capacity(),
    {
        self.total_written > self.capacity
    }

    /// The total number of bytes ever written; may exceed the capacity.
    #[verifier::when_used_as_spec(spec_total_written)]
    pub fn total_written(&self) -> (n: usize)
        ensures
            n == self.spec_total_written(),
    {
        self.total_written
    }

    /// Forget everything written so far; the capacity is unchanged.
    pub fn clear(&mut self)
        requires
            old(self).wf(),
        ensures
            final(self).wf(),
            final(self)@ == Seq::<u8>::empty(),
            final(self).spec_total_written() == 0,
            final(self).spec_capacity() == old(self).spec_capacity(),
    {
        self.data.clear();
        self.write_pos = 0;
        self.total_written = 0;
    }

    /// The maximum number of bytes retained.
    #[verifier::when_used_as_spec(spec_capacity)]
    pub fn capacity(&self) -> (n: usize)
        ensures
            n == self.spec_capacity(),
    {
        self.capacity
    }
}

/// Dropping the head of a chunk that is longer than the capacity does not
/// change what is retained.
proof fn lemma_keep_last_tail(before: Seq<u8>, data: Seq<u8>, cap: nat)
    requires
        cap > 0,
    ensures
        ({
            let skip = if data.len() > cap {
                data.len() - cap
            } else {
                0
            };
            keep_last(before + data.subrange(skip, data.len() as int), cap) == keep_last(
                before + data,
                cap,
            )
        }),
{
    let skip = if data.len() > cap {
        data.len() - cap
    } else {
        0
    };
    let kept = data.subrange(skip, data.len() as int);
    if skip == 0 {
        assert(kept =~= data);
    } else {
        assert(keep_last(before + kept, cap) =~= keep_last(before + data, cap));
    }
}

} // verus!
