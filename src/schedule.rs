//! Decisions of the ordered, bounded scheduler: which entry's task to start
//! next, which result to wait for, and when the run is over. The caller runs
//! the tasks and keeps their handles in a first-in, first-out queue.
use vstd::prelude::*;

verus! {

/// What the caller does next.
#[derive(Clone, Copy, Debug, PartialEq, Eq, Structural)]
pub enum SchedulerAction {
    /// Start the task of the entry with this index, at the back of the queue.
    Submit(usize),
    /// Wait for the task at the front of the queue, the entry with this
    /// index, and hand its result on.
    AwaitOldest(usize),
    /// Stop: every result was handed on, or a failure ended the run and the
    /// tasks not started are dropped.
    Finish,
}

/// The state of one run over `total` entries with at most `limit` tasks in
/// flight.
pub struct OrderedScheduler {
    total: usize,
    limit: usize,
    submitted: usize,
    completed: usize,
    failed: bool,
    awaited: Ghost<Seq<int>>,
}

/// The indices `0..n` in order.
pub open spec fn indices(n: int) -> Seq<int> {
    Seq::new(n as nat, |i: int| i)
}

impl OrderedScheduler {
    pub closed spec fn total(&self) -> nat {
        self.total as nat
    }

    pub closed spec fn limit(&self) -> nat {
        self.limit as nat
    }

    /// Tasks started so far: those of entries `0..submitted`.
    pub closed spec fn submitted(&self) -> nat {
        self.submitted as nat
    }

    /// Results handed on so far.
    pub closed spec fn completed(&self) -> nat {
        self.completed as nat
    }

    pub closed spec fn failed(&self) -> bool {
        self.failed
    }

    /// The indices of the results handed on, in the order they were.
    pub closed spec fn awaited(&self) -> Seq<int> {
        self.awaited@
    }

    pub closed spec fn wf(&self) -> bool {
        &&& 0 < self.limit
        &&& self.completed <= self.submitted <= self.total
        &&& self.submitted - self.completed <= self.limit
        &&& self.awaited@ == indices(self.completed as int)
    }

    /// The next step: stop after a failure; start a task while entries
    /// remain and fewer than `limit` are in flight; else wait for the
    /// oldest; stop when none is left.
    pub open spec fn next_step(&self) -> SchedulerAction {
        if self.failed() {
            SchedulerAction::Finish
        } else if self.submitted() < self.total() && self.submitted() - self.completed()
            < self.limit() {
            SchedulerAction::Submit(self.submitted() as usize)
        } else if self.completed() < self.submitted() {
            SchedulerAction::AwaitOldest(self.completed() as usize)
        } else {
            SchedulerAction::Finish
        }
    }

    /// A run over `total` entries; a `limit` of zero allows one task.
    pub fn new(total: usize, limit: usize) -> (r: OrderedScheduler)
        ensures
            r.wf(),
            r.total() == total,
            r.limit() == (if limit == 0 { 1 } else { limit }),
            r.submitted() == 0,
            r.completed() == 0,
            !r.failed(),
    {
        OrderedScheduler {
            total,
            limit: if limit == 0 { 1 } else { limit },
            submitted: 0,
            completed: 0,
            failed: false,
            awaited: Ghost(indices(0)),
        }
    }

    pub fn next_action(&self) -> (r: SchedulerAction)
        requires
            self.wf(),
        ensures
            r == self.next_step(),
    {
        if self.failed {
            SchedulerAction::Finish
        } else if self.submitted < self.total && self.submitted - self.completed < self.limit {
            SchedulerAction::Submit(self.submitted)
        } else if self.completed < self.submitted {
            SchedulerAction::AwaitOldest(self.completed)
        } else {
            SchedulerAction::Finish
        }
    }

    /// Records that the task asked for by `Submit` was started.
    pub fn on_submitted(&mut self)
        requires
            old(self).wf(),
            old(self).next_step() is Submit,
        ensures
            final(self).wf(),
            final(self).submitted() == old(self).submitted() + 1,
            final(self).completed() == old(self).completed(),
            final(self).total() == old(self).total(),
            final(self).limit() == old(self).limit(),
            final(self).failed() == old(self).failed(),
            final(self).awaited() == old(self).awaited(),
    {
        self.submitted = self.submitted + 1;
    }

    /// Records that the result asked for by `AwaitOldest` was handed on,
    /// and whether it was a success.
    pub fn on_completed(&mut self, ok: bool)
        requires
            old(self).wf(),
            old(self).next_step() is AwaitOldest,
        ensures
            final(self).wf(),
            final(self).completed() == old(self).completed() + 1,
            final(self).submitted() == old(self).submitted(),
            final(self).total() == old(self).total(),
            final(self).limit() == old(self).limit(),
            final(self).failed() == !ok,
            final(self).awaited() == old(self).awaited().push(old(self).completed() as int),
    {
        let ghost c = self.completed as int;
        self.awaited = Ghost(self.awaited@.push(c));
        self.completed = self.completed + 1;
        self.failed = !ok;
        proof {
            assert(self.awaited@ =~= indices(c + 1));
        }
    }

    /// Whether a failure ended the run.
    pub fn is_failed(&self) -> (r: bool)
        ensures
            r == self.failed(),
    {
        self.failed
    }

    /// At most `limit` tasks are ever in flight.
    pub proof fn lemma_in_flight_bounded(&self)
        requires
            self.wf(),
        ensures
            self.completed() <= self.submitted() <= self.total(),
            self.submitted() - self.completed() <= self.limit(),
    {
    }

    /// Results are handed on in submission order: those so far are the
    /// entries `0..completed`, and the one waited for next is the oldest
    /// task in flight, whatever the order in which tasks finish.
    pub proof fn lemma_oldest_first(&self)
        requires
            self.wf(),
        ensures
            self.awaited() == indices(self.completed() as int),
            self.next_step() matches SchedulerAction::AwaitOldest(i) ==> i == self.completed()
                && i < self.submitted(),
            self.next_step() matches SchedulerAction::Submit(i) ==> i == self.submitted()
                && i < self.total(),
    {
    }

    /// A run that stops without a failure has handed on one result for
    /// every entry, in the entries' order.
    pub proof fn lemma_success_covers_all(&self)
        requires
            self.wf(),
            self.next_step() is Finish,
            !self.failed(),
        ensures
            self.completed() == self.total(),
            self.awaited() == indices(self.total() as int),
    {
    }

    /// After a failure nothing more is started or waited for.
    pub proof fn lemma_failure_stops(&self)
        requires
            self.wf(),
            self.failed(),
        ensures
            self.next_step() is Finish,
    {
    }
}

} // verus!
