//! Deferred work queued at two priorities, and the dispatchers that hold it
//! until it is drained.
use vstd::prelude::*;
use std::collections::VecDeque;

verus! {

/// The priority at which deferred work is queued.
#[derive(Copy, Clone, Debug, PartialEq, Eq, Structural)]
pub enum DispatchPriority {
    Normal,
    Low,
}

/// The priority other than `priority`.
pub open spec fn other_priority(priority: DispatchPriority) -> DispatchPriority {
    match priority {
        DispatchPriority::Normal => DispatchPriority::Low,
        DispatchPriority::Low => DispatchPriority::Normal,
    }
}

/// Schedules deferred work onto a render-aware queue.
///
/// `queued(p)` is the work waiting at priority `p`, oldest first. A dispatcher
/// that accepts a job (returns `true`) appends it to the queue of its priority;
/// one that refuses it (returns `false`) leaves that queue as it was. The queue
/// of the other priority is never touched.
pub trait Dispatcher<J> {
    spec fn queued(&self, priority: DispatchPriority) -> Seq<J>;

    fn enqueue(&mut self, priority: DispatchPriority, f: J) -> (accepted: bool)
        ensures
            accepted ==> final(self).queued(priority) == old(self).queued(priority).push(f),
            !accepted ==> final(self).queued(priority) == old(self).queued(priority),
            final(self).queued(other_priority(priority)) == old(self).queued(other_priority(priority)),
    ;
}

/// The thread-safe counterpart of [`Dispatcher`]: implementations marshal the
/// job onto the UI thread. Its queues obey the same rule as those of
/// [`Dispatcher`], and `accepts(p)` says whether, in its present state, it
/// takes work at priority `p` (a dispatcher that has shut down takes none).
pub trait SendDispatcher<J> {
    spec fn queued(&self, priority: DispatchPriority) -> Seq<J>;

    spec fn accepts(&self, priority: DispatchPriority) -> bool;

    fn enqueue_send(&mut self, priority: DispatchPriority, f: J) -> (accepted: bool)
        ensures
            accepted == old(self).accepts(priority),
            accepted ==> final(self).queued(priority) == old(self).queued(priority).push(f),
            !accepted ==> final(self).queued(priority) == old(self).queued(priority),
            final(self).queued(other_priority(priority)) == old(self).queued(other_priority(priority)),
    ;
}

/// One step of draining queues holding `normal` and `low`: the job that runs
/// next (the oldest normal job, else the oldest low job) and the queues left
/// behind.
pub open spec fn drain_step<J>(normal: Seq<J>, low: Seq<J>) -> (Option<J>, Seq<J>, Seq<J>) {
    if normal.len() > 0 {
        (Some(normal[0]), normal.drop_first(), low)
    } else if low.len() > 0 {
        (Some(low[0]), normal, low.drop_first())
    } else {
        (None, normal, low)
    }
}

/// A drain takes the oldest job: when a normal job waits, the job taken is the
/// first normal one and what is left of the normal queue, put after it, is the
/// normal queue as it was, with the low queue untouched; when only low jobs
/// wait, the same holds of the low queue; when nothing waits, nothing is taken.
pub proof fn lemma_drain_step_takes_oldest<J>(normal: Seq<J>, low: Seq<J>)
    ensures
        normal.len() > 0 ==> {
            let (job, n, l) = drain_step(normal, low);
            &&& job == Some(normal[0])
            &&& seq![normal[0]] + n == normal
            &&& l == low
        },
        normal.len() == 0 && low.len() > 0 ==> {
            let (job, n, l) = drain_step(normal, low);
            &&& job == Some(low[0])
            &&& n == normal
            &&& seq![low[0]] + l == low
        },
        normal.len() == 0 && low.len() == 0 ==> drain_step(normal, low) == (None::<J>, normal, low),
{
    if normal.len() > 0 {
        assert(seq![normal[0]] + normal.drop_first() =~= normal);
    } else if low.len() > 0 {
        assert(seq![low[0]] + low.drop_first() =~= low);
    }
}

/// Normal jobs come out in the order they were queued: a normal job queued
/// while others wait is taken only after all of them, however jobs are queued
/// and taken meanwhile; concretely, after one drain step on queues where the
/// normal queue is `normal`, queuing `f` as a normal job leaves the normal
/// queue as the rest of `normal` followed by `f`.
pub proof fn lemma_normal_queue_is_fifo<J>(normal: Seq<J>, low: Seq<J>, f: J)
    requires
        normal.len() > 0,
    ensures
        drain_step(normal, low).1.push(f) == normal.subrange(1, normal.len() as int).push(f),
        drain_step(normal.push(f), low).0 == Some(normal[0]),
{
    assert(normal.drop_first() =~= normal.subrange(1, normal.len() as int));
    assert(normal.push(f)[0] == normal[0]);
}

/// The order in which a drain runs the jobs of `normal` and `low` when none of
/// them queues further work: step after step of [`drain_step`].
pub open spec fn drain_run<J>(normal: Seq<J>, low: Seq<J>) -> Seq<J>
    decreases normal.len() + low.len(),
{
    let (job, n, l) = drain_step(normal, low);
    match job {
        Some(j) => seq![j] + drain_run(n, l),
        None => Seq::empty(),
    }
}

/// Draining runs every normal job, oldest first, and then every low job,
/// oldest first.
pub proof fn lemma_drain_runs_normal_then_low<J>(normal: Seq<J>, low: Seq<J>)
    ensures
        drain_run(normal, low) == normal + low,
    decreases normal.len() + low.len(),
{
    if normal.len() > 0 {
        lemma_drain_runs_normal_then_low(normal.drop_first(), low);
        assert(normal + low =~= seq![normal[0]] + (normal.drop_first() + low));
    } else if low.len() > 0 {
        lemma_drain_runs_normal_then_low(normal, low.drop_first());
        assert(normal + low =~= seq![low[0]] + (normal + low.drop_first()));
    } else {
        assert(normal + low =~= Seq::<J>::empty());
    }
}

/// A normal job queued while low jobs are still waiting runs before all of
/// them, and after the normal jobs already waiting.
pub proof fn lemma_normal_followup_runs_before_waiting_low<J>(normal: Seq<J>, low: Seq<J>, f: J)
    ensures
        drain_run(normal.push(f), low) == normal + seq![f] + low,
{
    lemma_drain_runs_normal_then_low(normal.push(f), low);
    assert(normal.push(f) + low =~= normal + seq![f] + low);
}

/// Work queued at two priorities: each queue is first-in first-out, and all
/// normal work runs before any low work.
pub struct DispatchQueues<J> {
    normal: VecDeque<J>,
    low: VecDeque<J>,
}

impl<J> DispatchQueues<J> {
    /// The jobs waiting at `priority`, oldest first.
    pub closed spec fn jobs(&self, priority: DispatchPriority) -> Seq<J> {
        match priority {
            DispatchPriority::Normal => self.normal@,
            DispatchPriority::Low => self.low@,
        }
    }

    /// The number of jobs waiting at both priorities.
    pub open spec fn spec_pending(&self) -> nat {
        self.jobs(DispatchPriority::Normal).len() + self.jobs(DispatchPriority::Low).len()
    }

    pub fn new() -> (q: Self)
        ensures
            q.jobs(DispatchPriority::Normal) == Seq::<J>::empty(),
            q.jobs(DispatchPriority::Low) == Seq::<J>::empty(),
    {
        DispatchQueues { normal: VecDeque::new(), low: VecDeque::new() }
    }

    /// Appends `f` to the queue of `priority`.
    pub fn push(&mut self, priority: DispatchPriority, f: J)
        ensures
            final(self).jobs(priority) == old(self).jobs(priority).push(f),
            final(self).jobs(other_priority(priority)) == old(self).jobs(other_priority(priority)),
    {
        match priority {
            DispatchPriority::Normal => self.normal.push_back(f),
            DispatchPriority::Low => self.low.push_back(f),
        }
    }

    /// The number of jobs waiting.
    pub fn pending(&self) -> (n: usize)
        requires
            self.spec_pending() <= usize::MAX,
        ensures
            n == self.spec_pending(),
    {
        self.normal.len() + self.low.len()
    }

    /// Takes the job that runs next: the oldest normal job, or, when no normal
    /// job waits, the oldest low job.
    pub fn pop_next(&mut self) -> (job: Option<J>)
        ensures
            ({
                let (next, n, l) = drain_step(
                    old(self).jobs(DispatchPriority::Normal),
                    old(self).jobs(DispatchPriority::Low),
                );
                &&& job == next
                &&& final(self).jobs(DispatchPriority::Normal) == n
                &&& final(self).jobs(DispatchPriority::Low) == l
            }),
            old(self).jobs(DispatchPriority::Normal).len() > 0 ==> {
                &&& job == Some(old(self).jobs(DispatchPriority::Normal)[0])
                &&& seq![old(self).jobs(DispatchPriority::Normal)[0]] + final(self).jobs(
                    DispatchPriority::Normal,
                ) == old(self).jobs(DispatchPriority::Normal)
                &&& final(self).jobs(DispatchPriority::Low) == old(self).jobs(DispatchPriority::Low)
            },
            old(self).jobs(DispatchPriority::Normal).len() == 0 && old(self).jobs(
                DispatchPriority::Low,
            ).len() > 0 ==> {
                &&& job == Some(old(self).jobs(DispatchPriority::Low)[0])
                &&& final(self).jobs(DispatchPriority::Normal) == old(self).jobs(DispatchPriority::Normal)
                &&& seq![old(self).jobs(DispatchPriority::Low)[0]] + final(self).jobs(
                    DispatchPriority::Low,
                ) == old(self).jobs(DispatchPriority::Low)
            },
            old(self).jobs(DispatchPriority::Normal).len() == 0 && old(self).jobs(
                DispatchPriority::Low,
            ).len() == 0 ==> {
                &&& job is None
                &&& final(self).jobs(DispatchPriority::Normal) == old(self).jobs(DispatchPriority::Normal)
                &&& final(self).jobs(DispatchPriority::Low) == old(self).jobs(DispatchPriority::Low)
            },
    {
        match self.normal.pop_front() {
            Some(f) => Some(f),
            None => self.low.pop_front(),
        }
    }
}

/// A dispatcher that buffers work on the thread that owns it until it is
/// drained. A drain takes jobs with [`RunOnDemandDispatcher::next_job`] and
/// runs each one until no job is left; a job may queue more work while the
/// drain runs.
pub struct RunOnDemandDispatcher<J> {
    queues: DispatchQueues<J>,
}

impl<J> RunOnDemandDispatcher<J> {
    /// The jobs waiting at `priority`, oldest first.
    pub closed spec fn jobs(&self, priority: DispatchPriority) -> Seq<J> {
        self.queues.jobs(priority)
    }

    pub open spec fn spec_pending(&self) -> nat {
        self.jobs(DispatchPriority::Normal).len() + self.jobs(DispatchPriority::Low).len()
    }

    /// A dispatcher with no work waiting.
    pub fn new() -> (d: Self)
        ensures
            d.jobs(DispatchPriority::Normal) == Seq::<J>::empty(),
            d.jobs(DispatchPriority::Low) == Seq::<J>::empty(),
    {
        RunOnDemandDispatcher { queues: DispatchQueues::new() }
    }

    /// The number of jobs waiting at both priorities.
    pub fn pending(&self) -> (n: usize)
        requires
            self.spec_pending() <= usize::MAX,
        ensures
            n == self.spec_pending(),
    {
        self.queues.pending()
    }

    /// Takes the job that a drain runs next: the oldest normal job, or, when
    /// no normal job waits, the oldest low job; `None` when nothing waits.
    pub fn next_job(&mut self) -> (job: Option<J>)
        ensures
            ({
                let (next, n, l) = drain_step(
                    old(self).jobs(DispatchPriority::Normal),
                    old(self).jobs(DispatchPriority::Low),
                );
                &&& job == next
                &&& final(self).jobs(DispatchPriority::Normal) == n
                &&& final(self).jobs(DispatchPriority::Low) == l
            }),
            old(self).jobs(DispatchPriority::Normal).len() > 0 ==> {
                &&& job == Some(old(self).jobs(DispatchPriority::Normal)[0])
                &&& seq![old(self).jobs(DispatchPriority::Normal)[0]] + final(self).jobs(
                    DispatchPriority::Normal,
                ) == old(self).jobs(DispatchPriority::Normal)
                &&& final(self).jobs(DispatchPriority::Low) == old(self).jobs(DispatchPriority::Low)
            },
            old(self).jobs(DispatchPriority::Normal).len() == 0 && old(self).jobs(
                DispatchPriority::Low,
            ).len() > 0 ==> {
                &&& job == Some(old(self).jobs(DispatchPriority::Low)[0])
                &&& final(self).jobs(DispatchPriority::Normal) == old(self).jobs(DispatchPriority::Normal)
                &&& seq![old(self).jobs(DispatchPriority::Low)[0]] + final(self).jobs(
                    DispatchPriority::Low,
                ) == old(self).jobs(DispatchPriority::Low)
            },
            old(self).jobs(DispatchPriority::Normal).len() == 0 && old(self).jobs(
                DispatchPriority::Low,
            ).len() == 0 ==> {
                &&& job is None
                &&& final(self).jobs(DispatchPriority::Normal) == old(self).jobs(DispatchPriority::Normal)
                &&& final(self).jobs(DispatchPriority::Low) == old(self).jobs(DispatchPriority::Low)
            },
    {
        self.queues.pop_next()
    }
}

impl<J> Dispatcher<J> for RunOnDemandDispatcher<J> {
    open spec fn queued(&self, priority: DispatchPriority) -> Seq<J> {
        self.jobs(priority)
    }

    /// Queues `f` at `priority`; the job is always accepted.
    fn enqueue(&mut self, priority: DispatchPriority, f: J) -> (accepted: bool)
        ensures
            accepted,
    {
        self.queues.push(priority, f);
        true
    }
}

/// The thread-safe in-memory dispatcher: jobs wait in two queues until they
/// are drained, exactly as in [`RunOnDemandDispatcher`]; sharing it between
/// threads is left to its owner.
pub struct ChannelDispatcher<J> {
    queues: DispatchQueues<J>,
}

impl<J> ChannelDispatcher<J> {
    /// The jobs waiting at `priority`, oldest first.
    pub closed spec fn jobs(&self, priority: DispatchPriority) -> Seq<J> {
        self.queues.jobs(priority)
    }

    pub open spec fn spec_pending(&self) -> nat {
        self.jobs(DispatchPriority::Normal).len() + self.jobs(DispatchPriority::Low).len()
    }

    /// A dispatcher with no work waiting.
    pub fn new() -> (d: Self)
        ensures
            d.jobs(DispatchPriority::Normal) == Seq::<J>::empty(),
            d.jobs(DispatchPriority::Low) == Seq::<J>::empty(),
    {
        ChannelDispatcher { queues: DispatchQueues::new() }
    }

    /// The number of jobs waiting at both priorities.
    pub fn pending(&self) -> (n: usize)
        requires
            self.spec_pending() <= usize::MAX,
        ensures
            n == self.spec_pending(),
    {
        self.queues.pending()
    }

    /// Takes the job that a drain runs next: the oldest normal job, or, when
    /// no normal job waits, the oldest low job; `None` when nothing waits.
    pub fn next_job(&mut self) -> (job: Option<J>)
        ensures
            ({
                let (next, n, l) = drain_step(
                    old(self).jobs(DispatchPriority::Normal),
                    old(self).jobs(DispatchPriority::Low),
                );
                &&& job == next
                &&& final(self).jobs(DispatchPriority::Normal) == n
                &&& final(self).jobs(DispatchPriority::Low) == l
            }),
            old(self).jobs(DispatchPriority::Normal).len() > 0 ==> {
                &&& job == Some(old(self).jobs(DispatchPriority::Normal)[0])
                &&& seq![old(self).jobs(DispatchPriority::Normal)[0]] + final(self).jobs(
                    DispatchPriority::Normal,
                ) == old(self).jobs(DispatchPriority::Normal)
                &&& final(self).jobs(DispatchPriority::Low) == old(self).jobs(DispatchPriority::Low)
            },
            old(self).jobs(DispatchPriority::Normal).len() == 0 && old(self).jobs(
                DispatchPriority::Low,
            ).len() > 0 ==> {
                &&& job == Some(old(self).jobs(DispatchPriority::Low)[0])
                &&& final(self).jobs(DispatchPriority::Normal) == old(self).jobs(DispatchPriority::Normal)
                &&& seq![old(self).jobs(DispatchPriority::Low)[0]] + final(self).jobs(
                    DispatchPriority::Low,
                ) == old(self).jobs(DispatchPriority::Low)
            },
            old(self).jobs(DispatchPriority::Normal).len() == 0 && old(self).jobs(
                DispatchPriority::Low,
            ).len() == 0 ==> {
                &&& job is None
                &&& final(self).jobs(DispatchPriority::Normal) == old(self).jobs(DispatchPriority::Normal)
                &&& final(self).jobs(DispatchPriority::Low) == old(self).jobs(DispatchPriority::Low)
            },
    {
        self.queues.pop_next()
    }
}

impl<J> SendDispatcher<J> for ChannelDispatcher<J> {
    open spec fn queued(&self, priority: DispatchPriority) -> Seq<J> {
        self.jobs(priority)
    }

    /// An in-memory dispatcher takes work at every priority.
    open spec fn accepts(&self, priority: DispatchPriority) -> bool {
        true
    }

    /// Queues `f` at `priority`; the job is always accepted.
    fn enqueue_send(&mut self, priority: DispatchPriority, f: J) -> (accepted: bool)
        ensures
            accepted,
    {
        self.queues.push(priority, f);
        true
    }
}

} // verus!
