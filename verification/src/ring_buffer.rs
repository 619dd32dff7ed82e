//! A fixed-capacity queue of stereo sample pairs between the renderer, which
//! writes one pair at a time, and the audio host, which reads as many pairs
//! as its device asks for.
//!
//! The buffer checks nothing at run time: writing to a full buffer and
//! reading more pairs than are queued are ruled out by the callers'
//! obligations. It does no locking either; one writer and one reader on
//! different threads need a lock around it.

use vstd::prelude::*;

verus! {

/// Capacity of a ring buffer in sample pairs.
pub const BUFFER_LEN: usize = 64000;

/// A stereo sample pair: left, then right.
pub type Frame = (i16, i16);

/// The storage index that lies `offset` slots after `start`.
pub open spec fn slot_index(start: int, offset: int) -> int {
    (start + offset) % (BUFFER_LEN as int)
}

/// Going on from a slot by one distance and then by another is going on by
/// their sum.
proof fn lemma_slot_index_add(start: int, first: int, second: int)
    requires
        0 <= start,
        0 <= first,
        0 <= second,
    ensures
        slot_index(slot_index(start, first), second) == slot_index(start, first + second),
{
    vstd::arithmetic::div_mod::lemma_add_mod_noop_right(
        second,
        start + first,
        BUFFER_LEN as int,
    );
    vstd::arithmetic::div_mod::lemma_add_mod_noop_right(
        second,
        slot_index(start, first),
        BUFFER_LEN as int,
    );
    vstd::arithmetic::div_mod::lemma_mod_twice(start + first, BUFFER_LEN as int);
}

/// Two different distances below the capacity lead from a slot to two
/// different slots.
proof fn lemma_slot_index_distinct(start: int, first: int, second: int)
    requires
        0 <= start < BUFFER_LEN,
        0 <= first < BUFFER_LEN,
        0 <= second < BUFFER_LEN,
        first != second,
    ensures
        slot_index(start, first) != slot_index(start, second),
{
}

/// Queue of stereo sample pairs, first in, first out.
pub struct RingBuffer {
    left_buffer: Vec<i16>,
    right_buffer: Vec<i16>,
    write_pos: i32,
    read_pos: i32,
    sample_count: i32,
}

impl View for RingBuffer {
    type V = Seq<Frame>;

    /// The queued pairs, oldest first.
    closed spec fn view(&self) -> Seq<Frame> {
        Seq::new(self.sample_count as nat, |offset: int| self.peek(offset))
    }
}

impl RingBuffer {
    /// The pair stored `offset` slots after the read cursor: what a read
    /// copies to position `offset` of its destinations.
    pub closed spec fn peek(&self, offset: int) -> Frame {
        (
            self.left_buffer@[slot_index(self.read_pos as int, offset)],
            self.right_buffer@[slot_index(self.read_pos as int, offset)],
        )
    }

    /// The storage index at which the next read starts.
    pub closed spec fn read_cursor(&self) -> int {
        self.read_pos as int
    }

    /// The storage index to which the next write goes.
    pub closed spec fn write_cursor(&self) -> int {
        self.write_pos as int
    }

    /// Both channels have the full capacity, the cursors lie within it, the
    /// count is between 0 and the capacity, and the write cursor stands
    /// `count` slots after the read cursor.
    pub closed spec fn wf(&self) -> bool {
        &&& self.left_buffer@.len() == BUFFER_LEN
        &&& self.right_buffer@.len() == BUFFER_LEN
        &&& 0 <= self.read_pos < BUFFER_LEN
        &&& 0 <= self.write_pos < BUFFER_LEN
        &&& 0 <= self.sample_count <= BUFFER_LEN
        &&& self.write_pos == slot_index(self.read_pos as int, self.sample_count as int)
    }

    /// A well-formed buffer never queues more than its capacity, the
    /// queue's pairs are the ones stored from the read cursor on, and the
    /// write cursor stands behind the last of them.
    pub proof fn lemma_view(&self)
        requires
            self.wf(),
        ensures
            self@.len() <= BUFFER_LEN,
            forall|offset: int| 0 <= offset < self@.len() ==> self@[offset] == self.peek(offset),
            0 <= self.read_cursor() < BUFFER_LEN,
            self.write_cursor() == slot_index(self.read_cursor(), self@.len() as int),
    {
    }

    /// An empty buffer of silence.
    pub fn new() -> (buffer: RingBuffer)
        ensures
            buffer.wf(),
            buffer@ == Seq::<Frame>::empty(),
            buffer.read_cursor() == 0,
            buffer.write_cursor() == 0,
            forall|offset: int| 0 <= offset < BUFFER_LEN ==> buffer.peek(offset) == (0i16, 0i16),
    {
        let mut left_buffer: Vec<i16> = Vec::new();
        let mut right_buffer: Vec<i16> = Vec::new();
        let mut i: usize = 0;
        while i < BUFFER_LEN
            invariant
                i <= BUFFER_LEN,
                left_buffer@.len() == i,
                right_buffer@.len() == i,
                forall|k: int| 0 <= k < i ==> left_buffer@[k] == 0 && right_buffer@[k] == 0,
            decreases BUFFER_LEN - i,
        {
            left_buffer.push(0);
            right_buffer.push(0);
            i += 1;
        }
        let buffer = RingBuffer {
            left_buffer,
            right_buffer,
            write_pos: 0,
            read_pos: 0,
            sample_count: 0,
        };
        assert(buffer@ =~= Seq::<Frame>::empty());
        buffer
    }

    /// Discards everything queued and overwrites the whole storage with
    /// silence, whatever it held.
    pub fn reset(&mut self)
        requires
            old(self).wf(),
        ensures
            final(self).wf(),
            final(self)@ == Seq::<Frame>::empty(),
            final(self).read_cursor() == 0,
            final(self).write_cursor() == 0,
            forall|offset: int|
                0 <= offset < BUFFER_LEN ==> final(self).peek(offset) == (0i16, 0i16),
    {
        let mut i: usize = 0;
        while i < BUFFER_LEN
            invariant
                i <= BUFFER_LEN,
                self.left_buffer@.len() == BUFFER_LEN,
                self.right_buffer@.len() == BUFFER_LEN,
                forall|k: int|
                    0 <= k < i ==> self.left_buffer@[k] == 0 && self.right_buffer@[k] == 0,
            decreases BUFFER_LEN - i,
        {
            self.left_buffer[i] = 0;
            self.right_buffer[i] = 0;
            i += 1;
        }
        self.write_pos = 0;
        self.read_pos = 0;
        self.sample_count = 0;
        assert(self@ =~= Seq::<Frame>::empty());
    }

    /// Queues one pair behind everything queued so far, in the slot at the
    /// write cursor; every other slot keeps what it holds.
    ///
    /// The buffer must not be full.
    pub fn write_sample(&mut self, left: i16, right: i16)
        requires
            old(self).wf(),
            old(self)@.len() < BUFFER_LEN,
        ensures
            final(self).wf(),
            final(self)@ == old(self)@.push((left, right)),
            final(self).read_cursor() == old(self).read_cursor(),
            final(self).write_cursor() == slot_index(old(self).write_cursor(), 1),
            final(self).peek(old(self)@.len() as int) == (left, right),
            forall|k: int|
                0 <= k < BUFFER_LEN && k != old(self)@.len() ==> #[trigger] final(self).peek(k)
                    == old(self).peek(k),
    {
        self.left_buffer[self.write_pos as usize] = left;
        self.right_buffer[self.write_pos as usize] = right;
        self.write_pos = (self.write_pos + 1) % (BUFFER_LEN as i32);
        self.sample_count += 1;
        proof {
            let start = old(self).read_pos as int;
            let count = old(self).sample_count as int;
            assert forall|k: int| 0 <= k < BUFFER_LEN && k != count implies #[trigger] self.peek(
                k,
            ) == old(self).peek(k) by {
                lemma_slot_index_distinct(start, k, count);
            }
            lemma_slot_index_add(start, count, 1);
            assert(self@ =~= old(self)@.push((left, right)));
        }
    }

    /// Takes the `num_samples` oldest pairs off the queue and copies them,
    /// oldest first, to the start of `left` and `right`; what lies behind
    /// them in the destinations stays. Only the read cursor and the count
    /// move: every slot of the storage keeps what it holds.
    ///
    /// No more pairs may be asked for than are queued, and both
    /// destinations must have room for them.
    pub fn read(&mut self, left: &mut [i16], right: &mut [i16], num_samples: i32)
        requires
            old(self).wf(),
            0 <= num_samples <= old(self)@.len(),
            num_samples <= old(left)@.len(),
            num_samples <= old(right)@.len(),
        ensures
            final(self).wf(),
            final(self)@ == old(self)@.skip(num_samples as int),
            final(self).read_cursor() == slot_index(old(self).read_cursor(), num_samples as int),
            final(self).write_cursor() == old(self).write_cursor(),
            final(left)@.len() == old(left)@.len(),
            final(right)@.len() == old(right)@.len(),
            forall|i: int|
                0 <= i < num_samples ==> #[trigger] final(left)@[i] == old(self)@[i].0,
            forall|i: int|
                0 <= i < num_samples ==> #[trigger] final(right)@[i] == old(self)@[i].1,
            forall|i: int|
                0 <= i < num_samples ==> old(self)@[i] == #[trigger] old(self).peek(i),
            forall|k: int|
                0 <= k < BUFFER_LEN ==> #[trigger] final(self).peek(k) == old(self).peek(
                    num_samples + k,
                ),
            forall|i: int| num_samples <= i < old(left)@.len() ==> final(left)@[i] == old(left)@[i],
            forall|i: int|
                num_samples <= i < old(right)@.len() ==> final(right)@[i] == old(right)@[i],
    {
        self.copy_out(left, right, num_samples);
        self.sample_count -= num_samples;
        proof {
            let start = old(self).read_pos as int;
            assert forall|k: int| 0 <= k < BUFFER_LEN implies #[trigger] self.peek(k) == old(
                self,
            ).peek(num_samples + k) by {
                lemma_slot_index_add(start, num_samples as int, k);
            }
            assert(self@ =~= old(self)@.skip(num_samples as int));
            lemma_slot_index_add(start, num_samples as int, self.sample_count as int);
        }
    }

    /// Copies the `num_samples` pairs behind the read cursor to the start
    /// of the destinations and moves the read cursor past them. The count
    /// is left for the caller to lower.
    fn copy_out(&mut self, left: &mut [i16], right: &mut [i16], num_samples: i32)
        requires
            old(self).wf(),
            0 <= num_samples <= old(self).sample_count,
            num_samples <= old(left)@.len(),
            num_samples <= old(right)@.len(),
        ensures
            final(self).left_buffer == old(self).left_buffer,
            final(self).right_buffer == old(self).right_buffer,
            final(self).write_pos == old(self).write_pos,
            final(self).sample_count == old(self).sample_count,
            final(self).read_pos == slot_index(old(self).read_pos as int, num_samples as int),
            final(left)@.len() == old(left)@.len(),
            final(right)@.len() == old(right)@.len(),
            forall|k: int|
                0 <= k < num_samples ==> (#[trigger] final(left)@[k]) == old(self).peek(k).0,
            forall|k: int|
                0 <= k < num_samples ==> (#[trigger] final(right)@[k]) == old(self).peek(k).1,
            forall|k: int| num_samples <= k < old(left)@.len() ==> final(left)@[k] == old(left)@[k],
            forall|k: int|
                num_samples <= k < old(right)@.len() ==> final(right)@[k] == old(right)@[k],
    {
        let mut i: i32 = 0;
        while i < num_samples
            invariant
                0 <= i <= num_samples,
                old(self).wf(),
                num_samples <= left@.len(),
                num_samples <= right@.len(),
                left@.len() == old(left)@.len(),
                right@.len() == old(right)@.len(),
                self.left_buffer == old(self).left_buffer,
                self.right_buffer == old(self).right_buffer,
                self.write_pos == old(self).write_pos,
                self.sample_count == old(self).sample_count,
                self.read_pos == slot_index(old(self).read_pos as int, i as int),
                forall|k: int| 0 <= k < i ==> (#[trigger] left@[k]) == old(self).peek(k).0,
                forall|k: int| 0 <= k < i ==> (#[trigger] right@[k]) == old(self).peek(k).1,
                forall|k: int| i <= k < left@.len() ==> left@[k] == old(left)@[k],
                forall|k: int| i <= k < right@.len() ==> right@[k] == old(right)@[k],
            decreases num_samples - i,
        {
            left[i as usize] = self.left_buffer[self.read_pos as usize];
            right[i as usize] = self.right_buffer[self.read_pos as usize];
            self.read_pos = (self.read_pos + 1) % (BUFFER_LEN as i32);
            i += 1;
        }
    }

    /// Number of pairs queued.
    pub fn get_sample_count(&self) -> (count: i32)
        requires
            self.wf(),
        ensures
            count == self@.len(),
    {
        self.sample_count
    }
}

/// One use of a queue: a pair written, or a number of pairs read.
pub enum QueueOp {
    Write(Frame),
    Read(nat),
}

/// Whether `op` keeps to the callers' obligations on a queue that holds
/// `queue`: no write to a full queue, no read of more than is queued.
pub open spec fn op_allowed(queue: Seq<Frame>, op: QueueOp) -> bool {
    match op {
        QueueOp::Write(_) => queue.len() < BUFFER_LEN,
        QueueOp::Read(count) => count <= queue.len(),
    }
}

/// The queue after `op`, as `write_sample` and `read` leave it.
pub open spec fn queue_after_op(queue: Seq<Frame>, op: QueueOp) -> Seq<Frame> {
    match op {
        QueueOp::Write(frame) => queue.push(frame),
        QueueOp::Read(count) => queue.skip(count as int),
    }
}

/// The queue after all of `ops`, in order.
pub open spec fn queue_after(queue: Seq<Frame>, ops: Seq<QueueOp>) -> Seq<Frame>
    decreases ops.len(),
{
    if ops.len() == 0 {
        queue
    } else {
        queue_after_op(queue_after(queue, ops.drop_last()), ops.last())
    }
}

/// Whether every one of `ops` keeps to the callers' obligations at the
/// point where it happens.
pub open spec fn ops_allowed(queue: Seq<Frame>, ops: Seq<QueueOp>) -> bool
    decreases ops.len(),
{
    ops.len() == 0 || (ops_allowed(queue, ops.drop_last()) && op_allowed(
        queue_after(queue, ops.drop_last()),
        ops.last(),
    ))
}

/// The pairs that the writes among `ops` queued, in order.
pub open spec fn frames_written(ops: Seq<QueueOp>) -> Seq<Frame>
    decreases ops.len(),
{
    if ops.len() == 0 {
        Seq::empty()
    } else {
        match ops.last() {
            QueueOp::Write(frame) => frames_written(ops.drop_last()).push(frame),
            QueueOp::Read(_) => frames_written(ops.drop_last()),
        }
    }
}

/// The pairs that the reads among `ops` handed out, in order.
pub open spec fn frames_read(queue: Seq<Frame>, ops: Seq<QueueOp>) -> Seq<Frame>
    decreases ops.len(),
{
    if ops.len() == 0 {
        Seq::empty()
    } else {
        match ops.last() {
            QueueOp::Write(_) => frames_read(queue, ops.drop_last()),
            QueueOp::Read(count) => frames_read(queue, ops.drop_last()) + queue_after(
                queue,
                ops.drop_last(),
            ).take(count as int),
        }
    }
}

/// First in, first out: after any allowed sequence of writes and reads,
/// what was read followed by what is still queued is what was queued at
/// the start followed by what was written. So pairs come out in the order
/// in which they went in, none is lost or repeated, and the number queued
/// is the number at the start plus the number written less the number read.
pub proof fn lemma_fifo(queue: Seq<Frame>, ops: Seq<QueueOp>)
    requires
        ops_allowed(queue, ops),
    ensures
        frames_read(queue, ops) + queue_after(queue, ops) == queue + frames_written(ops),
        queue_after(queue, ops).len() == queue.len() + frames_written(ops).len() - frames_read(
            queue,
            ops,
        ).len(),
    decreases ops.len(),
{
    if ops.len() > 0 {
        let earlier = ops.drop_last();
        lemma_fifo(queue, earlier);
        let read = frames_read(queue, earlier);
        let held = queue_after(queue, earlier);
        let written = frames_written(earlier);
        assert(read + held == queue + written);
        match ops.last() {
            QueueOp::Write(frame) => {
                assert(read + held.push(frame) =~= (read + held).push(frame));
                assert(queue + written.push(frame) =~= (queue + written).push(frame));
            },
            QueueOp::Read(count) => {
                assert((read + held.take(count as int)) + held.skip(count as int) =~= read + held);
            },
        }
    }
}

/// On a queue that starts empty, `m` pairs read after `k` pairs written
/// are the first `m` of the pairs written, and `k - m` pairs stay queued.
pub proof fn lemma_fifo_from_empty(ops: Seq<QueueOp>)
    requires
        ops_allowed(Seq::empty(), ops),
    ensures
        frames_read(Seq::empty(), ops).len() <= frames_written(ops).len(),
        frames_read(Seq::empty(), ops) == frames_written(ops).take(
            frames_read(Seq::empty(), ops).len() as int,
        ),
        queue_after(Seq::empty(), ops) == frames_written(ops).skip(
            frames_read(Seq::empty(), ops).len() as int,
        ),
        queue_after(Seq::empty(), ops).len() == frames_written(ops).len() - frames_read(
            Seq::empty(),
            ops,
        ).len(),
{
    let start = Seq::<Frame>::empty();
    lemma_fifo(start, ops);
    let read = frames_read(start, ops);
    let held = queue_after(start, ops);
    let written = frames_written(ops);
    assert(start + written =~= written);
    assert((read + held).take(read.len() as int) =~= read);
    assert((read + held).skip(read.len() as int) =~= held);
}

} // verus!
