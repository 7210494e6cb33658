use crate::context::Context;
use crate::error::FtdiError;
use crate::operation::{interpret, outcome, DriverReply, Operation};
use vstd::prelude::*;

verus! {

/// What one read call of the driver gave: its status and, on success, the
/// bytes that it placed.
#[derive(Debug)]
pub struct ReadReply {
    pub code: i32,
    pub message: &'static str,
    pub data: Vec<u8>,
}

impl ReadReply {
    /// The status part of the reply.
    pub open spec fn status(self) -> DriverReply {
        DriverReply { code: self.code, message: self.message }
    }

    /// A successful read of at most `room` bytes reports as many bytes as it
    /// placed, and no more than were asked for.
    pub open spec fn fits(self, room: int) -> bool {
        self.code >= 0 ==> self.data@.len() == self.code && self.code <= room
    }

    /// Tests `fits`.
    pub fn within(&self, room: usize) -> (r: bool)
        ensures
            r == self.fits(room as int),
    {
        if self.code < 0 {
            return true;
        }
        let count: usize = self.code as usize;
        self.data.len() == count && count <= room
    }
}

/// `buf` with `data` laid over it from position `at` on.
pub open spec fn place(buf: Seq<u8>, at: int, data: Seq<u8>) -> Seq<u8> {
    Seq::new(
        buf.len(),
        |i: int|
            if at <= i < at + data.len() {
                data[i - at]
            } else {
                buf[i]
            },
    )
}

/// The read that is due when a buffer of `len` bytes is filled up to `pos`:
/// none when it is full, else one for the room that is left.
pub open spec fn pending_spec(len: int, pos: int) -> Option<int> {
    if pos < len {
        Some(len - pos)
    } else {
        None
    }
}

/// The room to ask the driver for next, or `None` when the buffer is full.
pub fn pending(len: usize, pos: usize) -> (r: Option<usize>)
    ensures
        match pending_spec(len as int, pos as int) {
            Some(room) => r == Some(room as usize) && room == len - pos,
            None => r.is_none(),
        },
{
    if pos < len {
        Some(len - pos)
    } else {
        None
    }
}

/// Where a run of reads into one buffer stands.
pub ghost struct Run {
    /// The buffer.
    pub buf: Seq<u8>,
    /// How much of it is filled.
    pub pos: int,
    /// How many reads were made.
    pub reads: int,
    /// The failure that ended the run, if one did.
    pub failure: Option<FtdiError>,
}

/// Whether every read that a run makes fits the room that is left for it.
pub open spec fn admissible(len: int, pos: int, replies: Seq<ReadReply>) -> bool
    decreases replies.len(),
{
    if pos >= len || replies.len() == 0 {
        true
    } else {
        let first = replies[0];
        first.fits(len - pos) && (first.code >= 0 ==> admissible(
            len,
            pos + first.code,
            replies.skip(1),
        ))
    }
}

/// Tests `admissible`.
pub fn admits(len: usize, start: usize, replies: &Vec<ReadReply>) -> (r: bool)
    ensures
        r == admissible(len as int, start as int, replies@),
{
    if start >= len {
        return true;
    }
    let mut pos: usize = start;
    let mut next: usize = 0;
    proof {
        assert(replies@.skip(0) =~= replies@);
    }
    while pos < len && next < replies.len()
        invariant
            start <= pos <= len,
            next <= replies@.len(),
            admissible(len as int, start as int, replies@) == admissible(
                len as int,
                pos as int,
                replies@.skip(next as int),
            ),
        decreases replies@.len() - next,
    {
        proof {
            assert(replies@.skip(next as int)[0] == replies@[next as int]);
            assert(replies@.skip(next as int).skip(1) =~= replies@.skip(next + 1));
        }
        let reply = &replies[next];
        if !reply.within(len - pos) {
            return false;
        }
        if reply.code < 0 {
            return true;
        }
        pos += reply.code as usize;
        next += 1;
    }
    true
}

/// The run of reads that fills `buf` from `pos` on, given what the driver
/// answers to each read in turn. A read is made only while the buffer is not
/// full, no failure has occurred and an answer is left. Each successful read
/// lays its bytes behind those of the one before.
pub open spec fn run(buf: Seq<u8>, pos: int, replies: Seq<ReadReply>) -> Run
    decreases replies.len(),
{
    if pending_spec(buf.len() as int, pos).is_none() || replies.len() == 0 {
        Run { buf, pos, reads: 0, failure: None }
    } else {
        let first = replies[0];
        match outcome(Operation::ReadData, first.status()) {
            Err(e) => Run { buf, pos, reads: 1, failure: Some(e) },
            Ok(count) => {
                let rest = run(place(buf, pos, first.data@), pos + count, replies.skip(1));
                Run { buf: rest.buf, pos: rest.pos, reads: rest.reads + 1, failure: rest.failure }
            },
        }
    }
}

impl Context {
    /// One read into `buf` from position `start` on; `reply` is what the
    /// driver answered. On success the bytes of the reply lie in `buf` from
    /// `start` on and their number is returned, which may be less than the
    /// room that was left. On failure `buf` is as it was.
    pub fn read_data(&mut self, buf: &mut Vec<u8>, start: usize, reply: &ReadReply) -> (r: Result<
        usize,
        FtdiError,
    >)
        requires
            old(self).is_live(),
            reply.fits(old(buf)@.len() - start),
        ensures
            *final(self) == *old(self),
            match outcome(Operation::ReadData, reply.status()) {
                Ok(count) => r == Ok::<usize, FtdiError>(count as usize) && final(buf)@ == place(
                    old(buf)@,
                    start as int,
                    reply.data@,
                ),
                Err(e) => r == Err::<usize, FtdiError>(e) && final(buf)@ == old(buf)@,
            },
    {
        match interpret(Operation::ReadData, DriverReply { code: reply.code, message: reply.message }) {
            Err(e) => Err(e),
            Ok(code) => {
                let count: usize = code as usize;
                let len: usize = buf.len();
                let mut i: usize = 0;
                while i < count
                    invariant
                        i <= count,
                        len == buf@.len(),
                        count == reply.data@.len(),
                        start + count <= buf@.len(),
                        buf@.len() == old(buf)@.len(),
                        buf@ == place(old(buf)@, start as int, reply.data@.subrange(0, i as int)),
                    decreases count - i,
                {
                    buf.set(start + i, reply.data[i]);
                    i += 1;
                    proof {
                        assert(buf@ =~= place(
                            old(buf)@,
                            start as int,
                            reply.data@.subrange(0, i as int),
                        ));
                    }
                }
                proof {
                    assert(reply.data@.subrange(0, count as int) =~= reply.data@);
                }
                Ok(count)
            },
        }
    }

    /// Fills `buf` from position `start` on with the reads whose answers are
    /// given, in their order, until the buffer is full, a read fails or the
    /// answers run out. Returns how far the buffer is filled: it is full when
    /// that is its length. The first failure is returned as it is, and no
    /// answer behind it is looked at.
    pub fn read_exact(&mut self, buf: &mut Vec<u8>, start: usize, replies: &Vec<ReadReply>) -> (r:
        Result<usize, FtdiError>)
        requires
            old(self).is_live(),
            admissible(old(buf)@.len() as int, start as int, replies@),
        ensures
            *final(self) == *old(self),
            final(buf)@ == run(old(buf)@, start as int, replies@).buf,
            match run(old(buf)@, start as int, replies@).failure {
                Some(e) => r == Err::<usize, FtdiError>(e),
                None => r.is_ok() && r.unwrap() as int == run(
                    old(buf)@,
                    start as int,
                    replies@,
                ).pos,
            },
    {
        let mut pos: usize = start;
        let mut next: usize = 0;
        proof {
            assert(replies@.skip(0) =~= replies@);
        }
        while pos < buf.len() && next < replies.len()
            invariant
                self.is_live(),
                *self == *old(self),
                next <= replies@.len(),
                pos <= buf@.len() || pos == start,
                buf@.len() == old(buf)@.len(),
                admissible(buf@.len() as int, pos as int, replies@.skip(next as int)),
                run(old(buf)@, start as int, replies@).buf == run(
                    buf@,
                    pos as int,
                    replies@.skip(next as int),
                ).buf,
                run(old(buf)@, start as int, replies@).pos == run(
                    buf@,
                    pos as int,
                    replies@.skip(next as int),
                ).pos,
                run(old(buf)@, start as int, replies@).failure == run(
                    buf@,
                    pos as int,
                    replies@.skip(next as int),
                ).failure,
            decreases replies@.len() - next,
        {
            proof {
                assert(replies@.skip(next as int)[0] == replies@[next as int]);
                assert(replies@.skip(next as int).skip(1) =~= replies@.skip(next + 1));
            }
            let count = self.read_data(buf, pos, &replies[next])?;
            pos += count;
            next += 1;
        }
        Ok(pos)
    }
}

/// The bytes of all the replies, one behind the other.
pub open spec fn joined(replies: Seq<ReadReply>) -> Seq<u8>
    decreases replies.len(),
{
    if replies.len() == 0 {
        Seq::<u8>::empty()
    } else {
        replies[0].data@ + joined(replies.skip(1))
    }
}

/// Whether a reply is a successful read that reports as many bytes as it
/// carries.
pub open spec fn short_read(reply: ReadReply) -> bool {
    reply.code >= 0 && reply.data@.len() == reply.code
}

/// Short reads add up.
///
/// Where every read succeeds and the reads together give as many bytes as
/// the buffer had room for, the run ends without a failure, the buffer is
/// full, and behind what it held before `start` it holds the bytes of the
/// reads in the order in which they came.
pub proof fn lemma_short_reads_fill(buf: Seq<u8>, start: int, replies: Seq<ReadReply>)
    requires
        0 <= start <= buf.len(),
        forall|i: int| 0 <= i < replies.len() ==> short_read(#[trigger] replies[i]),
        start + joined(replies).len() == buf.len(),
    ensures
        admissible(buf.len() as int, start, replies),
        run(buf, start, replies).failure == None::<FtdiError>,
        run(buf, start, replies).pos == buf.len(),
        run(buf, start, replies).buf == buf.subrange(0, start) + joined(replies),
    decreases replies.len(),
{
    if start >= buf.len() || replies.len() == 0 {
        assert(buf.subrange(0, start) + joined(replies) =~= buf);
    } else {
        let first = replies[0];
        let rest = replies.skip(1);
        assert(short_read(first));
        let laid = place(buf, start, first.data@);
        assert forall|i: int| 0 <= i < rest.len() implies short_read(#[trigger] rest[i]) by {
            assert(rest[i] == replies[i + 1]);
        }
        lemma_short_reads_fill(laid, start + first.code, rest);
        assert(laid.subrange(0, start + first.code) =~= buf.subrange(0, start) + first.data@);
        assert(run(buf, start, replies).buf =~= buf.subrange(0, start) + joined(replies));
    }
}

/// The first failure ends the run.
///
/// Where the read with number `k` fails, every read before it succeeds and
/// the buffer is not full when it is made, the run ends with that read's
/// error, no read is made after it, and the buffer holds the bytes of the
/// reads before it and is otherwise as it was.
pub proof fn lemma_first_failure_ends_run(
    buf: Seq<u8>,
    start: int,
    replies: Seq<ReadReply>,
    k: int,
)
    requires
        0 <= start,
        0 <= k < replies.len(),
        forall|i: int| 0 <= i < k ==> short_read(#[trigger] replies[i]),
        replies[k].code < 0,
        start + joined(replies.take(k)).len() < buf.len(),
    ensures
        admissible(buf.len() as int, start, replies),
        outcome(Operation::ReadData, replies[k].status()).is_err(),
        run(buf, start, replies).failure == Some(
            outcome(Operation::ReadData, replies[k].status()).unwrap_err(),
        ),
        run(buf, start, replies).reads == k + 1,
        run(buf, start, replies).pos == start + joined(replies.take(k)).len(),
        run(buf, start, replies).buf == place(buf, start, joined(replies.take(k))),
    decreases k,
{
    if k == 0 {
        assert(joined(replies.take(0)) =~= Seq::<u8>::empty());
        assert(place(buf, start, joined(replies.take(0))) =~= buf);
    } else {
        let first = replies[0];
        let rest = replies.skip(1);
        assert(short_read(first));
        let laid = place(buf, start, first.data@);
        assert(replies.take(k)[0] == first);
        assert(replies.take(k).skip(1) =~= rest.take(k - 1));
        assert(joined(replies.take(k)) == first.data@ + joined(rest.take(k - 1)));
        assert forall|i: int| 0 <= i < k - 1 implies short_read(#[trigger] rest[i]) by {
            assert(rest[i] == replies[i + 1]);
        }
        assert(rest[k - 1] == replies[k]);
        lemma_first_failure_ends_run(laid, start + first.code, rest, k - 1);
        assert(place(laid, start + first.code, joined(rest.take(k - 1))) =~= place(
            buf,
            start,
            joined(replies.take(k)),
        ));
    }
}

/// A run can be made in parts.
///
/// Feeding the answers in two portions, the second from where the first
/// left the buffer, gives what feeding them all at once gives. After a
/// failure in the first portion nothing of the second is looked at.
pub proof fn lemma_run_resumes(
    buf: Seq<u8>,
    pos: int,
    first: Seq<ReadReply>,
    second: Seq<ReadReply>,
)
    ensures
        ({
            let head = run(buf, pos, first);
            let whole = run(buf, pos, first + second);
            let tail = run(head.buf, head.pos, second);
            match head.failure {
                Some(e) => whole == head,
                None => whole.buf == tail.buf && whole.pos == tail.pos && whole.failure
                    == tail.failure && whole.reads == head.reads + tail.reads,
            }
        }),
    decreases first.len(),
{
    if first.len() == 0 {
        assert(first + second =~= second);
    } else if pending_spec(buf.len() as int, pos).is_none() {
    } else {
        let reply = first[0];
        assert((first + second)[0] == reply);
        assert((first + second).skip(1) =~= first.skip(1) + second);
        match outcome(Operation::ReadData, reply.status()) {
            Err(e) => {},
            Ok(count) => {
                lemma_run_resumes(place(buf, pos, reply.data@), pos + count, first.skip(1), second);
            },
        }
    }
}

} // verus!
