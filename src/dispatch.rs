//! The hand-off between one producer and a fixed set of workers.
//!
//! A `Dispatch` is the state that the pool's shared channel guards: an ordered
//! queue of messages, and which workers have stopped. Each message leaves the
//! queue once, to the one worker that took it.
use vstd::prelude::*;

verus! {

/// The largest number of workers that the recorder runs at once.
pub const MAX_WORKERS: usize = 10;

/// One unit handed from the pool to a worker.
pub enum Message<T> {
    /// Work to run to completion.
    NewTask(T),
    /// The signal that ends the worker that takes it.
    Terminate,
}

/// The number of `Terminate` signals in a queue.
pub open spec fn terminates_in<T>(q: Seq<Message<T>>) -> nat
    decreases q.len(),
{
    if q.len() == 0 {
        0
    } else {
        terminates_in(q.drop_last()) + if q.last() is Terminate {
            1nat
        } else {
            0nat
        }
    }
}

/// The number of tasks in a queue.
pub open spec fn tasks_in<T>(q: Seq<Message<T>>) -> nat
    decreases q.len(),
{
    if q.len() == 0 {
        0
    } else {
        tasks_in(q.drop_last()) + if q.last() is NewTask {
            1nat
        } else {
            0nat
        }
    }
}

/// The number of `true` entries.
pub open spec fn count_true(s: Seq<bool>) -> nat
    decreases s.len(),
{
    if s.len() == 0 {
        0
    } else {
        count_true(s.drop_last()) + if s.last() {
            1nat
        } else {
            0nat
        }
    }
}

/// A queue of `n` termination signals.
pub open spec fn terminate_round<T>(n: nat) -> Seq<Message<T>> {
    Seq::new(n, |i: int| Message::<T>::Terminate)
}

/// The worker count of a pool for `streams` streams: one per stream, at most `MAX_WORKERS`.
pub open spec fn spec_pool_size(streams: nat) -> nat {
    if streams < MAX_WORKERS {
        streams
    } else {
        MAX_WORKERS as nat
    }
}

/// The number of workers to start for `streams` streams.
pub fn pool_size(streams: usize) -> (r: usize)
    ensures
        r == spec_pool_size(streams as nat),
        r <= MAX_WORKERS,
        streams > 0 ==> r > 0,
{
    if streams < MAX_WORKERS {
        streams
    } else {
        MAX_WORKERS
    }
}

proof fn lemma_counts_push<T>(q: Seq<Message<T>>, m: Message<T>)
    ensures
        terminates_in(q.push(m)) == terminates_in(q) + if m is Terminate {
            1nat
        } else {
            0nat
        },
        tasks_in(q.push(m)) == tasks_in(q) + if m is NewTask {
            1nat
        } else {
            0nat
        },
{
    assert(q.push(m).drop_last() =~= q);
}

proof fn lemma_counts_drop_first<T>(q: Seq<Message<T>>)
    requires
        q.len() > 0,
    ensures
        terminates_in(q) == terminates_in(q.drop_first()) + if q[0] is Terminate {
            1nat
        } else {
            0nat
        },
        tasks_in(q) == tasks_in(q.drop_first()) + if q[0] is NewTask {
            1nat
        } else {
            0nat
        },
    decreases q.len(),
{
    if q.len() > 1 {
        lemma_counts_drop_first(q.drop_last());
        assert(q.drop_last().drop_first() =~= q.drop_first().drop_last());
    } else {
        assert(q.drop_last() =~= Seq::<Message<T>>::empty());
        assert(q.drop_first() =~= Seq::<Message<T>>::empty());
    }
}

proof fn lemma_terminate_round<T>(q: Seq<Message<T>>, n: nat)
    ensures
        terminates_in(q + terminate_round::<T>(n)) == terminates_in(q) + n,
        tasks_in(q + terminate_round::<T>(n)) == tasks_in(q),
    decreases n,
{
    if n > 0 {
        lemma_terminate_round(q, (n - 1) as nat);
        assert((q + terminate_round::<T>(n)).drop_last() =~= q + terminate_round::<T>(
            (n - 1) as nat,
        ));
    } else {
        assert(q + terminate_round::<T>(n) =~= q);
    }
}

proof fn lemma_count_true_update(s: Seq<bool>, i: int)
    requires
        0 <= i < s.len(),
        !s[i],
    ensures
        count_true(s.update(i, true)) == count_true(s) + 1,
    decreases s.len(),
{
    if i < s.len() - 1 {
        lemma_count_true_update(s.drop_last(), i);
        assert(s.update(i, true).drop_last() =~= s.drop_last().update(i, true));
    } else {
        assert(s.update(i, true).drop_last() =~= s.drop_last());
    }
}

proof fn lemma_count_true_bound(s: Seq<bool>)
    ensures
        count_true(s) <= s.len(),
        count_true(s) == s.len() ==> forall|i: int| 0 <= i < s.len() ==> #[trigger] s[i],
    decreases s.len(),
{
    if s.len() > 0 {
        lemma_count_true_bound(s.drop_last());
        if count_true(s) == s.len() {
            assert forall|i: int| 0 <= i < s.len() implies #[trigger] s[i] by {
                if i < s.len() - 1 {
                    assert(s.drop_last()[i] == s[i]);
                }
            }
        }
    }
}

proof fn lemma_all_false(n: nat)
    ensures
        count_true(Seq::new(n, |i: int| false)) == 0,
    decreases n,
{
    if n > 0 {
        lemma_all_false((n - 1) as nat);
        assert(Seq::new(n, |i: int| false).drop_last() =~= Seq::new(
            (n - 1) as nat,
            |i: int| false,
        ));
    }
}

/// The queue that the pool's workers share, and which of them have stopped.
pub struct Dispatch<T> {
    queue: std::collections::VecDeque<Message<T>>,
    exited: Vec<bool>,
    submitted: Ghost<nat>,
    delivered: Ghost<nat>,
    rounds: Ghost<nat>,
}

impl<T> Dispatch<T> {
    /// The messages not yet taken, oldest first.
    pub closed spec fn pending(&self) -> Seq<Message<T>> {
        self.queue@
    }

    /// The number of workers, fixed when the pool is made.
    pub closed spec fn workers(&self) -> nat {
        self.exited@.len()
    }

    /// Whether worker `w` has taken a `Terminate` and stopped.
    pub closed spec fn has_exited(&self, w: int) -> bool {
        self.exited@[w]
    }

    /// The number of workers that have stopped.
    pub closed spec fn exited_count(&self) -> nat {
        count_true(self.exited@)
    }

    /// The number of tasks handed in so far.
    pub closed spec fn submitted(&self) -> nat {
        self.submitted@
    }

    /// The number of tasks handed to a worker so far.
    pub closed spec fn delivered(&self) -> nat {
        self.delivered@
    }

    /// The number of rounds of termination signals sent.
    pub closed spec fn rounds(&self) -> nat {
        self.rounds@
    }

    /// Every task handed in is either still queued or was handed out once, and
    /// every termination signal sent is either queued or stopped one worker.
    pub closed spec fn wf(&self) -> bool {
        &&& self.exited@.len() > 0
        &&& self.delivered@ + tasks_in(self.queue@) == self.submitted@
        &&& count_true(self.exited@) + terminates_in(self.queue@) == self.rounds@ * self.exited@.len()
    }

    /// A pool state for `size` workers, none stopped, nothing queued.
    pub fn new(size: usize) -> (r: Self)
        requires
            size > 0,
        ensures
            r.wf(),
            r.workers() == size,
            r.pending() == Seq::<Message<T>>::empty(),
            forall|w: int| 0 <= w < size ==> !#[trigger] r.has_exited(w),
            r.exited_count() == 0,
            r.submitted() == 0,
            r.delivered() == 0,
            r.rounds() == 0,
    {
        let mut exited: Vec<bool> = Vec::with_capacity(size);
        let mut i: usize = 0;
        while i < size
            invariant
                i <= size,
                exited@ =~= Seq::new(i as nat, |j: int| false),
            decreases size - i,
        {
            exited.push(false);
            i = i + 1;
        }
        proof {
            lemma_all_false(size as nat);
            assert(0 * size == 0);
        }
        let queue = std::collections::VecDeque::new();
        assert(tasks_in(queue@) == 0 && terminates_in(queue@) == 0);
        Dispatch {
            queue,
            exited,
            submitted: Ghost(0),
            delivered: Ghost(0),
            rounds: Ghost(0),
        }
    }

    /// The number of workers.
    pub fn worker_count(&self) -> (r: usize)
        ensures
            r == self.workers(),
    {
        self.exited.len()
    }

    /// Whether worker `w` has stopped.
    pub fn exited(&self, w: usize) -> (r: bool)
        requires
            w < self.workers(),
        ensures
            r == self.has_exited(w as int),
    {
        self.exited[w]
    }

    /// Queues a task behind everything already queued.
    pub fn execute(&mut self, task: T)
        requires
            old(self).wf(),
        ensures
            final(self).wf(),
            final(self).pending() == old(self).pending().push(Message::NewTask(task)),
            final(self).submitted() == old(self).submitted() + 1,
            final(self).delivered() == old(self).delivered(),
            final(self).rounds() == old(self).rounds(),
            final(self).workers() == old(self).workers(),
            forall|w: int| #[trigger] final(self).has_exited(w) == old(self).has_exited(w),
            final(self).exited_count() == old(self).exited_count(),
    {
        proof {
            lemma_counts_push(self.queue@, Message::NewTask(task));
        }
        self.queue.push_back(Message::NewTask(task));
        self.submitted = Ghost(self.submitted@ + 1);
    }

    /// Queues one `Terminate` for each worker, behind everything already queued.
    pub fn terminate(&mut self)
        requires
            old(self).wf(),
        ensures
            final(self).wf(),
            final(self).pending() == old(self).pending() + terminate_round::<T>(old(self).workers()),
            final(self).rounds() == old(self).rounds() + 1,
            final(self).submitted() == old(self).submitted(),
            final(self).delivered() == old(self).delivered(),
            final(self).workers() == old(self).workers(),
            forall|w: int| #[trigger] final(self).has_exited(w) == old(self).has_exited(w),
            final(self).exited_count() == old(self).exited_count(),
    {
        let n = self.exited.len();
        let mut i: usize = 0;
        while i < n
            invariant
                i <= n,
                n == self.exited@.len(),
                self.exited@ == old(self).exited@,
                self.submitted == old(self).submitted,
                self.delivered == old(self).delivered,
                self.rounds == old(self).rounds,
                self.queue@ == old(self).queue@ + terminate_round::<T>(i as nat),
            decreases n - i,
        {
            proof {
                assert(old(self).queue@ + terminate_round::<T>((i + 1) as nat) =~= (old(
                    self,
                ).queue@ + terminate_round::<T>(i as nat)).push(Message::Terminate));
            }
            self.queue.push_back(Message::Terminate);
            i = i + 1;
        }
        proof {
            lemma_terminate_round(old(self).queue@, n as nat);
            assert((self.rounds@ + 1) * n == self.rounds@ * n + n) by (nonlinear_arith);
        }
        self.rounds = Ghost(self.rounds@ + 1);
    }

    /// Worker `worker` takes the oldest queued message, if there is one. A
    /// worker that takes `Terminate` is stopped from then on.
    pub fn take(&mut self, worker: usize) -> (r: Option<Message<T>>)
        requires
            old(self).wf(),
            worker < old(self).workers(),
            !old(self).has_exited(worker as int),
        ensures
            final(self).wf(),
            final(self).workers() == old(self).workers(),
            final(self).submitted() == old(self).submitted(),
            final(self).rounds() == old(self).rounds(),
            old(self).pending().len() == 0 ==> r is None && *final(self) == *old(self),
            old(self).pending().len() > 0 ==> {
                &&& r == Some(old(self).pending()[0])
                &&& final(self).pending() == old(self).pending().drop_first()
                &&& final(self).delivered() == old(self).delivered() + if r->0 is NewTask {
                    1nat
                } else {
                    0nat
                }
                &&& final(self).exited_count() == old(self).exited_count() + if r->0 is Terminate {
                    1nat
                } else {
                    0nat
                }
                &&& forall|w: int|
                    0 <= w < old(self).workers() ==> #[trigger] final(self).has_exited(w) == (old(self).has_exited(w) || (w
                        == worker && r->0 is Terminate))
            },
    {
        if self.queue.len() == 0 {
            return None;
        }
        proof {
            lemma_counts_drop_first(self.queue@);
        }
        let m = self.queue.pop_front();
        proof {
            assert(self.queue@ =~= old(self).queue@.drop_first());
        }
        match &m {
            Some(Message::NewTask(_)) => {
                self.delivered = Ghost(self.delivered@ + 1);
            },
            Some(Message::Terminate) => {
                proof {
                    lemma_count_true_update(self.exited@, worker as int);
                }
                self.exited.set(worker, true);
            },
            None => {},
        }
        m
    }

    /// Once the queue is empty, every task handed in has been handed to a
    /// worker: as many were handed out as were handed in, each message once.
    pub proof fn lemma_drained_runs_every_task(self)
        requires
            self.wf(),
            self.pending().len() == 0,
        ensures
            self.delivered() == self.submitted(),
    {
    }

    /// After one round of termination signals, once the queue is empty every
    /// worker has stopped.
    pub proof fn lemma_drained_after_terminate_stops_all(self)
        requires
            self.wf(),
            self.rounds() == 1,
            self.pending().len() == 0,
        ensures
            self.exited_count() == self.workers(),
            forall|w: int| 0 <= w < self.workers() ==> #[trigger] self.has_exited(w),
    {
        lemma_count_true_bound(self.exited@);
    }

    /// After one round of termination signals, while a signal is still queued
    /// some worker is still running to take it: draining never stalls.
    pub proof fn lemma_queued_terminate_has_taker(self)
        requires
            self.wf(),
            self.rounds() == 1,
            terminates_in(self.pending()) > 0,
        ensures
            exists|w: int| 0 <= w < self.workers() && !#[trigger] self.has_exited(w),
    {
        if forall|w: int| 0 <= w < self.workers() ==> #[trigger] self.has_exited(w) {
            assert forall|i: int| 0 <= i < self.exited@.len() implies #[trigger] self.exited@[i] by {
                assert(self.has_exited(i));
            }
            lemma_count_true_all(self.exited@);
        }
    }
}

proof fn lemma_count_true_all(s: Seq<bool>)
    requires
        forall|i: int| 0 <= i < s.len() ==> #[trigger] s[i],
    ensures
        count_true(s) == s.len(),
    decreases s.len(),
{
    if s.len() > 0 {
        assert forall|i: int| 0 <= i < s.drop_last().len() implies #[trigger] s.drop_last()[i] by {
            assert(s[i]);
        }
        lemma_count_true_all(s.drop_last());
        assert(s[s.len() - 1]);
    }
}

} // verus!
