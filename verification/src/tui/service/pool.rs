//! The state of a worker pool: the jobs that wait, in the order in which
//! they were submitted, and the number of workers that are busy.
//!
//! The threads themselves are the caller's. Each worker takes the oldest job
//! that waits, runs it, and reports back; submitting never waits for a
//! worker.

use vstd::prelude::*;

verus! {

/// A pool of `workers` workers and the jobs submitted to it.
pub struct WorkerPool<J> {
    waiting: Vec<J>,
    workers: usize,
    active: usize,
}

impl<J> WorkerPool<J> {
    #[verifier::type_invariant]
    closed spec fn busy_within_size(self) -> bool {
        self.active <= self.workers
    }

    /// The jobs that wait, oldest first.
    pub closed spec fn queue(&self) -> Seq<J> {
        self.waiting@
    }

    /// Number of workers.
    pub closed spec fn size(&self) -> usize {
        self.workers
    }

    /// Number of workers that run a job.
    pub closed spec fn busy(&self) -> usize {
        self.active
    }

    /// A pool of `workers` workers, all idle, with no job waiting.
    pub fn new(workers: usize) -> (r: Self)
        ensures
            r.queue() == Seq::<J>::empty(),
            r.size() == workers,
            r.busy() == 0,
    {
        WorkerPool { waiting: Vec::new(), workers, active: 0 }
    }

    /// Number of workers.
    pub fn worker_count(&self) -> (r: usize)
        ensures
            r == self.size(),
    {
        self.workers
    }

    /// Number of workers that run a job; never more than there are workers.
    pub fn active_workers(&self) -> (r: usize)
        ensures
            r == self.busy(),
            r <= self.size(),
    {
        proof {
            use_type_invariant(self);
        }
        self.active
    }

    /// Number of jobs that wait.
    pub fn waiting_jobs(&self) -> (r: usize)
        ensures
            r == self.queue().len(),
    {
        self.waiting.len()
    }

    /// Puts `job` behind the jobs that wait. This always succeeds, however
    /// many jobs wait and whatever the workers do.
    pub fn submit(&mut self, job: J)
        ensures
            final(self).queue() == old(self).queue().push(job),
            final(self).size() == old(self).size(),
            final(self).busy() == old(self).busy(),
    {
        proof {
            use_type_invariant(&*self);
        }
        let workers = self.workers;
        let active = self.active;
        let mut waiting: Vec<J> = Vec::new();
        core::mem::swap(&mut self.waiting, &mut waiting);
        waiting.push(job);
        *self = WorkerPool { waiting, workers, active };
    }

    /// Hands the oldest job that waits to an idle worker, which is busy from
    /// then on. Gives nothing where no job waits or no worker is idle.
    pub fn take(&mut self) -> (job: Option<J>)
        ensures
            final(self).size() == old(self).size(),
            match job {
                Some(j) => {
                    &&& old(self).queue().len() > 0
                    &&& old(self).busy() < old(self).size()
                    &&& j == old(self).queue()[0]
                    &&& final(self).queue() == old(self).queue().drop_first()
                    &&& final(self).busy() == old(self).busy() + 1
                },
                None => {
                    &&& old(self).queue().len() == 0 || old(self).busy() == old(self).size()
                    &&& final(self).queue() == old(self).queue()
                    &&& final(self).busy() == old(self).busy()
                },
            },
    {
        proof {
            use_type_invariant(&*self);
        }
        if self.waiting.len() == 0 || self.active >= self.workers {
            return None;
        }
        let workers = self.workers;
        let active = self.active + 1;
        let mut waiting: Vec<J> = Vec::new();
        core::mem::swap(&mut self.waiting, &mut waiting);
        let job = waiting.remove(0);
        assert(waiting@ =~= old(self).queue().drop_first());
        *self = WorkerPool { waiting, workers, active };
        Some(job)
    }

    /// Books that a worker has run its job to the end and is idle again.
    pub fn finished(&mut self)
        ensures
            final(self).queue() == old(self).queue(),
            final(self).size() == old(self).size(),
            final(self).busy() == if old(self).busy() > 0 {
                (old(self).busy() - 1) as usize
            } else {
                0
            },
    {
        proof {
            use_type_invariant(&*self);
        }
        if self.active > 0 {
            self.active = self.active - 1;
        }
    }
}

/// Jobs leave the pool in the order in which they were submitted: of two
/// jobs submitted one after the other to a pool with idle workers, the first
/// is taken first.
pub proof fn lemma_first_in_first_out<J>(queue: Seq<J>, a: J, b: J)
    ensures
        queue.push(a).push(b).drop_first() == if queue.len() == 0 {
            seq![b]
        } else {
            queue.drop_first().push(a).push(b)
        },
        queue.push(a).push(b)[0] == if queue.len() == 0 {
            a
        } else {
            queue[0]
        },
{
    if queue.len() == 0 {
        assert(queue.push(a).push(b).drop_first() =~= seq![b]);
    } else {
        assert(queue.push(a).push(b).drop_first() =~= queue.drop_first().push(a).push(b));
    }
}

} // verus!
