//! The import queue: a FIFO of pending legacy-import jobs. Enqueue
//! appends exactly one job; dequeue removes exactly the first. One
//! long-lived worker owns the dequeuing end, so at most one import is
//! in flight system-wide; callers share the enqueuing end under a
//! lock they supply.
use vstd::prelude::*;

verus! {

/// One pending import job: the guild to import into and the
/// third-party token to import with.
pub type ImportQueueMember = (u64, String);

/// A FIFO of pending import jobs.
pub struct ImportQueue {
    items: Vec<ImportQueueMember>,
}

impl View for ImportQueue {
    type V = Seq<ImportQueueMember>;

    /// The queue's jobs, front first.
    closed spec fn view(&self) -> Seq<ImportQueueMember> {
        self.items@
    }
}

impl ImportQueue {
    /// The empty queue.
    pub fn new() -> (r: Self)
        ensures
            r@ == Seq::<ImportQueueMember>::empty(),
    {
        ImportQueue { items: Vec::new() }
    }

    /// How many jobs are pending.
    pub fn len(&self) -> (r: usize)
        ensures
            r == self@.len(),
    {
        self.items.len()
    }

    /// Appends exactly one job at the back; nothing else changes.
    pub fn enqueue(&mut self, member: ImportQueueMember)
        ensures
            final(self)@ == old(self)@.push(member),
    {
        self.items.push(member);
    }

    /// Removes and returns exactly the first job, in enqueue order;
    /// on an empty queue does nothing and returns nothing.
    pub fn dequeue(&mut self) -> (r: Option<ImportQueueMember>)
        ensures
            old(self)@.len() == 0 ==> r is None && final(self)@ == old(self)@,
            old(self)@.len() > 0 ==> r == Some(old(self)@[0]) && final(self)@ == old(
                self,
            )@.drop_first(),
    {
        if self.items.len() == 0 {
            None
        } else {
            let m = self.items.remove(0);
            proof {
                assert(final(self)@ =~= old(self)@.drop_first());
            }
            Some(m)
        }
    }

    /// Dequeues until empty: exactly the jobs that were pending come
    /// out, one at a time, in enqueue order.
    pub fn drain(&mut self) -> (r: Vec<ImportQueueMember>)
        ensures
            r@ == old(self)@,
            final(self)@.len() == 0,
    {
        let mut out: Vec<ImportQueueMember> = Vec::new();
        proof {
            assert(out@ + self@ =~= old(self)@);
        }
        loop
            invariant
                out@ + self@ == old(self)@,
            ensures
                out@ + self@ == old(self)@,
                self@.len() == 0,
            decreases self@.len(),
        {
            match self.dequeue() {
                None => {
                    break;
                },
                Some(m) => {
                    out.push(m);
                    proof {
                        assert(out@ + self@ =~= old(self)@);
                    }
                },
            }
        }
        proof {
            assert(out@ =~= old(self)@);
        }
        out
    }
}

/// The queue contents after a batch of enqueues, one at a time.
pub open spec fn spec_after_enqueues(
    q: Seq<ImportQueueMember>,
    jobs: Seq<ImportQueueMember>,
) -> Seq<ImportQueueMember>
    decreases jobs.len(),
{
    if jobs.len() == 0 {
        q
    } else {
        spec_after_enqueues(q.push(jobs[0]), jobs.drop_first())
    }
}

/// Enqueuing N jobs, in any interleaving that serializes them in this
/// order, leaves exactly those N jobs behind the ones already pending
/// — none lost, none duplicated — and `dequeue` then hands them out
/// strictly one at a time in that order. With `q` empty this is: N
/// enqueued jobs are eventually dequeued exactly N times, in order.
pub proof fn lemma_import_queue_fifo(q: Seq<ImportQueueMember>, jobs: Seq<ImportQueueMember>)
    ensures
        spec_after_enqueues(q, jobs) == q + jobs,
        spec_after_enqueues(q, jobs).len() == q.len() + jobs.len(),
    decreases jobs.len(),
{
    if jobs.len() == 0 {
        assert(q + jobs =~= q);
    } else {
        lemma_import_queue_fifo(q.push(jobs[0]), jobs.drop_first());
        assert(q.push(jobs[0]) + jobs.drop_first() =~= q + jobs);
    }
}

} // verus!
