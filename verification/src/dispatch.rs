//! The bounded FIFO job queue shared by all adapters, and the dispatcher's
//! byte stream: each job's encoding followed by the fixed closing trailer,
//! written strictly in queue order. One dispatcher owning the printer
//! connection and draining this queue is what gives at-most-one in-flight
//! print.

use vstd::prelude::*;
use crate::printer::ESC;
use crate::printer::LF;
use crate::printer::PrintData;
use crate::printer::encode;
use crate::printer::encode_spec;

verus! {

/// Capacity of the job queue: a full queue suspends producers, throttling
/// the adapters when the printer stalls.
pub const QUEUE_CAPACITY: usize = 16;

/// A bounded first-in-first-out queue of print jobs.
pub struct JobQueue {
    items: Vec<PrintData>,
}

impl View for JobQueue {
    type V = Seq<PrintData>;

    closed spec fn view(&self) -> Seq<PrintData> {
        self.items@
    }
}

impl JobQueue {
    /// The queue never holds more than its capacity.
    pub open spec fn inv(self) -> bool {
        self@.len() <= QUEUE_CAPACITY
    }

    /// An empty queue.
    pub fn new() -> (q: JobQueue)
        ensures
            q@ == Seq::<PrintData>::empty(),
            q.inv(),
    {
        JobQueue { items: Vec::new() }
    }

    /// How many jobs are queued.
    pub fn len(&self) -> (n: usize)
        ensures
            n == self@.len(),
    {
        self.items.len()
    }

    /// Enqueue a job at the back; refused exactly when the queue is full.
    pub fn try_send(&mut self, job: PrintData) -> (ok: bool)
        ensures
            ok == (old(self)@.len() < QUEUE_CAPACITY),
            ok ==> final(self)@ == old(self)@.push(job),
            !ok ==> final(self)@ == old(self)@,
            old(self).inv() ==> final(self).inv(),
    {
        if self.items.len() < QUEUE_CAPACITY {
            self.items.push(job);
            true
        } else {
            false
        }
    }

    /// Dequeue the oldest job, if any.
    pub fn recv(&mut self) -> (r: Option<PrintData>)
        ensures
            match r {
                Some(j) => old(self)@.len() > 0 && j == old(self)@[0] && final(self)@ == old(
                    self,
                )@.drop_first(),
                None => old(self)@.len() == 0 && final(self)@ == old(self)@,
            },
            old(self).inv() ==> final(self).inv(),
    {
        if self.items.len() > 0 {
            let j = self.items.remove(0);
            proof {
                assert(self.items@ =~= old(self)@.drop_first());
            }
            Some(j)
        } else {
            None
        }
    }
}

/// The fixed closing trailer the dispatcher writes after every job: feed
/// six lines and print, full paper cut, form feed back to standard mode.
pub open spec fn trailer_spec() -> Seq<u8> {
    seq![ESC, 0x64u8, 0x06u8, LF, ESC, 0x69u8, 0x0Cu8]
}

/// Everything the dispatcher writes for one job: its encoding, then the
/// job-independent closing trailer.
pub open spec fn job_bytes(j: PrintData) -> Seq<u8> {
    encode_spec(j@) + trailer_spec()
}

/// The byte stream the dispatcher produces for a queue of jobs, in order.
pub open spec fn stream_of(jobs: Seq<PrintData>) -> Seq<u8>
    decreases jobs.len(),
{
    if jobs.len() == 0 {
        Seq::empty()
    } else {
        job_bytes(jobs[0]) + stream_of(jobs.drop_first())
    }
}

/// The fixed closing trailer, as bytes.
pub fn trailer() -> (out: Vec<u8>)
    ensures
        out@ == trailer_spec(),
{
    let mut out: Vec<u8> = Vec::new();
    out.push(ESC);
    out.push(0x64);
    out.push(0x06);
    out.push(LF);
    out.push(ESC);
    out.push(0x69);
    out.push(0x0C);
    proof {
        assert(out@ =~= trailer_spec());
    }
    out
}

/// The full write for one job: encoding plus trailer, in order.
pub fn dispatch_job(job: &PrintData) -> (out: Vec<u8>)
    ensures
        out@ == job_bytes(*job),
{
    let mut out = encode(job);
    let mut tail = trailer();
    out.append(&mut tail);
    out
}

/// Ordering: the bytes of the first `i` queued jobs precede the bytes of
/// the remaining jobs, for every split point; the dispatcher never
/// reorders or interleaves jobs.
pub proof fn lemma_stream_order(jobs: Seq<PrintData>, i: int)
    requires
        0 <= i <= jobs.len(),
    ensures
        stream_of(jobs) == stream_of(jobs.subrange(0, i)) + stream_of(
            jobs.subrange(i, jobs.len() as int),
        ),
    decreases i,
{
    if i == 0 {
        assert(jobs.subrange(0, jobs.len() as int) =~= jobs);
        assert(stream_of(jobs.subrange(0, 0)) =~= Seq::empty());
        assert(stream_of(jobs) =~= stream_of(jobs.subrange(0, 0)) + stream_of(
            jobs.subrange(0, jobs.len() as int),
        ));
    } else {
        assert(jobs.len() > 0);
        let rest = jobs.drop_first();
        lemma_stream_order(rest, i - 1);
        assert(rest.subrange(0, i - 1) =~= jobs.subrange(0, i).drop_first());
        assert(rest.subrange(i - 1, rest.len() as int) =~= jobs.subrange(i, jobs.len() as int));
        assert(stream_of(jobs) =~= stream_of(jobs.subrange(0, i)) + stream_of(
            jobs.subrange(i, jobs.len() as int),
        ));
    }
}

/// Drain the queue completely, producing exactly the dispatcher's byte
/// stream for the queued jobs in first-in-first-out order.
pub fn drain(q: &mut JobQueue) -> (out: Vec<u8>)
    ensures
        out@ == stream_of(old(q)@),
        final(q)@.len() == 0,
{
    let mut out: Vec<u8> = Vec::new();
    while q.len() > 0
        invariant
            stream_of(old(q)@) == out@ + stream_of(q@),
        decreases q@.len(),
    {
        match q.recv() {
            Some(j) => {
                let mut bytes = dispatch_job(&j);
                out.append(&mut bytes);
                proof {
                    assert(out@ + stream_of(q@) =~= stream_of(old(q)@));
                }
            },
            None => {
                proof {
                    assert(false);
                }
            },
        }
    }
    proof {
        assert(out@ =~= stream_of(old(q)@));
    }
    out
}

} // verus!
