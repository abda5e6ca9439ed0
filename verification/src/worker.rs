//! A single-consumer background worker with a cancellable task queue and a
//! back-pressure counter.
//!
//! The real system runs the consumer on a dedicated thread fed by a channel;
//! producers hold cloned scheduler handles. This module verifies the queue's
//! observable semantics as a sequential model: the scheduler owns the queued
//! tasks, the live-task counter and the stop flag, and the drain cycle the
//! consumer thread would run is an explicit function. Every law the queue is
//! relied on for — tasks delivered once and in submission order, rejection
//! after stop, the busy signal tracking queue depth — is stated over this
//! model and proved.

use vstd::prelude::*;

verus! {

/// Error returned when a task is submitted after the worker stopped; it hands
/// the rejected task back to the caller, who may drop or redirect it.
#[derive(Debug)]
pub struct Stopped<T>(pub T);

/// A handler for one task at a time. The worker adapts any such handler to a
/// batch handler that runs its items in order.
pub trait Runnable<T> {
    fn run(&mut self, t: T);
}

/// A handler for a whole drained batch of tasks.
pub trait BatchRunnable<T> {
    fn run_batch(&mut self, ts: &mut Vec<T>);
}

impl<T, R: Runnable<T>> BatchRunnable<T> for R {
    /// Runs the batch's tasks one at a time, first to last, draining the
    /// vector: on return nothing is left in it.
    fn run_batch(&mut self, ts: &mut Vec<T>)
        ensures
            final(ts)@.len() == 0,
    {
        while ts.len() > 0
            decreases ts@.len(),
        {
            let t = ts.remove(0);
            self.run(t);
        }
    }
}

/// Producer-side handle of a worker: the task queue, the live-task counter
/// and the stop flag.
///
/// In the running system this state is shared — a channel plus an atomic
/// counter — and any number of cloned handles feed one consumer. The model is
/// sequential: one value owns queue, counter and flag, so each law below is
/// about the state all those handles observe.
pub struct Scheduler<T> {
    pending: Vec<T>,
    counter: usize,
    stopped: bool,
}

impl<T> Scheduler<T> {
    /// The tasks accepted but not yet pulled by a drain cycle, in submission
    /// order.
    pub closed spec fn queue(&self) -> Seq<T> {
        self.pending@
    }

    /// The live-task counter: incremented once per accepted submission,
    /// decremented once per dequeued batch — queue depth, not work in flight.
    pub closed spec fn count(&self) -> int {
        self.counter as int
    }

    /// Whether the stop sentinel has been submitted.
    pub closed spec fn is_stopped(&self) -> bool {
        self.stopped
    }

    /// The counter agrees with the queue: it counts exactly the tasks
    /// accepted and not yet dequeued.
    pub open spec fn wf(&self) -> bool {
        self.count() == self.queue().len()
    }

    /// The busy signal: some accepted task has not yet been pulled.
    pub open spec fn busy(&self) -> bool {
        self.count() > 0
    }

    /// A fresh scheduler: empty queue, counter zero, not stopped.
    pub fn new() -> (s: Scheduler<T>)
        ensures
            s.wf(),
            s.queue() == Seq::<T>::empty(),
            s.count() == 0,
            !s.is_stopped(),
    {
        Scheduler { pending: Vec::new(), counter: 0, stopped: false }
    }

    /// Schedule a task to run.
    ///
    /// If the worker is stopped, the task is rejected and handed back
    /// unchanged; otherwise it is appended to the queue and the live-task
    /// counter grows by one.
    pub fn schedule(&mut self, task: T) -> (r: Result<(), Stopped<T>>)
        requires
            old(self).wf(),
        ensures
            final(self).wf(),
            schedule_transition(*old(self), *final(self), task, r),
    {
        if self.stopped {
            return Err(Stopped(task));
        }
        self.pending.push(task);
        self.counter = self.pending.len();
        Ok(())
    }

    /// Check whether the underlying worker cannot handle a task immediately:
    /// true exactly while some accepted task has not been pulled off the
    /// queue. It is an optimistic idle signal — a batch already handed to the
    /// handler may still be executing.
    pub fn is_busy(&self) -> (r: bool)
        ensures
            r == self.busy(),
    {
        self.counter > 0
    }
}

/// How one `schedule` call relates the scheduler state before and after, the
/// submitted task and the returned value.
pub open spec fn schedule_transition<T>(
    pre: Scheduler<T>,
    post: Scheduler<T>,
    task: T,
    r: Result<(), Stopped<T>>,
) -> bool {
    if pre.is_stopped() {
        &&& post == pre
        &&& r matches Err(Stopped(t)) && t == task
    } else {
        &&& post.queue() == pre.queue().push(task)
        &&& post.count() == pre.count() + 1
        &&& !post.is_stopped()
        &&& r == Ok::<(), Stopped<T>>(())
    }
}

/// Create a scheduler that accepts no task: every submission is rejected as
/// if the worker had already stopped.
pub fn dummy_scheduler<T>() -> (s: Scheduler<T>)
    ensures
        s.wf(),
        s.queue() == Seq::<T>::empty(),
        s.count() == 0,
        s.is_stopped(),
{
    Scheduler { pending: Vec::new(), counter: 0, stopped: true }
}

/// What one wake-up of the consumer yields: the thread exits because the stop
/// sentinel is the next thing on the channel, or it has drained a batch.
/// `keep_going` is false when the sentinel was met while pulling the batch;
/// the batch collected so far is still run, and the thread exits after it.
pub enum Pulled<T> {
    Exit,
    Batch { tasks: Vec<T>, keep_going: bool },
}

/// The batch size a drain cycle actually uses: zero degenerates to one, the
/// per-task dispatch the blocking receive alone would give.
pub open spec fn effective_batch(batch_size: usize) -> usize {
    if batch_size == 0 {
        1
    } else {
        batch_size
    }
}

/// What one drain cycle does to the queue: with tasks queued, it removes the
/// first `min(batch_size, queued)` of them as the batch handed to the handler
/// and decrements the counter by that number.
pub open spec fn batch_transition<T>(
    pre: Scheduler<T>,
    post: Scheduler<T>,
    tasks: Seq<T>,
    batch_size: usize,
) -> bool {
    let k = if batch_size as int <= pre.queue().len() {
        batch_size as int
    } else {
        pre.queue().len() as int
    };
    &&& pre.queue().len() > 0
    &&& tasks == pre.queue().take(k)
    &&& post.queue() == pre.queue().skip(k)
    &&& post.count() == pre.count() - k
    &&& post.is_stopped() == pre.is_stopped()
}

/// How one drain cycle relates the scheduler state before and after to what
/// it yields. A batch changes the queue as `batch_transition` says, and the
/// cycle stops early only at the stop sentinel, which sits behind the last
/// queued task once `stop` was called.
pub open spec fn pull_transition<T>(
    pre: Scheduler<T>,
    post: Scheduler<T>,
    r: Pulled<T>,
    batch_size: usize,
) -> bool {
    &&& post.is_stopped() == pre.is_stopped()
    &&& match r {
        Pulled::Exit => {
            &&& pre.queue().len() == 0
            &&& pre.is_stopped()
            &&& post == pre
        },
        Pulled::Batch { tasks, keep_going } => {
            let k = if batch_size as int <= pre.queue().len() {
                batch_size as int
            } else {
                pre.queue().len() as int
            };
            &&& batch_transition(pre, post, tasks@, batch_size)
            &&& keep_going == !(pre.is_stopped() && k < batch_size)
        },
    }
}

impl<T> Scheduler<T> {
    /// One wake-up of the consumer: block for the next value, then pull
    /// further ready tasks without blocking, up to `batch_size` in all; a
    /// batch size of zero degenerates to one task per wake-up. A consumer
    /// with an empty queue and no stop request would block, which a
    /// sequential model cannot show, so that state is excluded here; `poll`
    /// returns to its caller instead of blocking.
    pub fn pull_batch(&mut self, batch_size: usize) -> (r: Pulled<T>)
        requires
            old(self).wf(),
            old(self).queue().len() > 0 || old(self).is_stopped(),
        ensures
            final(self).wf(),
            pull_transition(*old(self), *final(self), r, effective_batch(batch_size)),
    {
        let limit = if batch_size == 0 {
            1
        } else {
            batch_size
        };
        if self.pending.len() == 0 {
            // Nothing queued and stop requested: the next value received is
            // the sentinel, so the consumer exits at once.
            return Pulled::Exit;
        }
        let k = if limit <= self.pending.len() {
            limit
        } else {
            self.pending.len()
        };
        let mut tasks: Vec<T> = Vec::new();
        let mut i: usize = 0;
        while i < k
            invariant
                old(self).wf(),
                i <= k,
                k >= 1,
                limit == effective_batch(batch_size),
                k as int == (if limit as int <= old(self).queue().len() {
                    limit as int
                } else {
                    old(self).queue().len() as int
                }),
                k as int <= old(self).queue().len(),
                tasks@ == old(self).queue().take(i as int),
                self.pending@ == old(self).queue().skip(i as int),
                self.counter as int == old(self).count() - i,
                self.stopped == old(self).is_stopped(),
            decreases k - i,
        {
            proof {
                assert(old(self).queue().skip(i as int).remove(0) =~= old(self).queue().skip(
                    i as int + 1,
                ));
            }
            let t = self.pending.remove(0);
            tasks.push(t);
            proof {
                assert(tasks@ =~= old(self).queue().take(i as int + 1));
            }
            self.counter = self.counter - 1;
            i = i + 1;
        }
        let keep_going = !(self.stopped && k < limit);
        Pulled::Batch { tasks, keep_going }
    }
}

/// The consumer loop: drain cycles feed the handler one batch at a time until
/// the queue is exhausted or the stop sentinel is met. The thread this loop
/// runs on in the real system blocks on an empty channel; the model returns
/// to its caller instead, which amounts to the same observable history.
pub fn poll<T, R: BatchRunnable<T>>(runner: &mut R, s: &mut Scheduler<T>, batch_size: usize)
    requires
        old(s).wf(),
    ensures
        final(s).wf(),
        final(s).queue().len() == 0,
        final(s).count() == 0,
        final(s).is_stopped() == old(s).is_stopped(),
{
    let mut done: bool = false;
    while !done
        invariant
            s.wf(),
            s.is_stopped() == old(s).is_stopped(),
            done ==> s.queue().len() == 0,
        decreases s.queue().len() + (if done { 0int } else { 1int }),
    {
        if !s.is_busy() {
            done = true;
        } else {
            match s.pull_batch(batch_size) {
                Pulled::Exit => {
                    done = true;
                },
                Pulled::Batch { mut tasks, keep_going } => {
                    runner.run_batch(&mut tasks);
                    if !keep_going {
                        done = true;
                    }
                },
            }
        }
    }
}

/// A worker that runs time-consuming tasks in the background. It owns the
/// scheduler state and, in place of the consumer thread the running system
/// spawns, exposes the consumer's work as `run_pending`.
pub struct Worker<T> {
    name: String,
    scheduler: Scheduler<T>,
    receiver_held: bool,
    handle: bool,
    batch_size: usize,
}

impl<T> Worker<T> {
    /// The queue state this worker's scheduler handle observes.
    pub closed spec fn sched(&self) -> Scheduler<T> {
        self.scheduler
    }

    /// Whether a consumer was ever started: the channel's receiving end has
    /// been handed over.
    pub closed spec fn started(&self) -> bool {
        !self.receiver_held
    }

    /// Whether the consumer's handle is still held — false before start and
    /// again after `stop` takes it.
    pub closed spec fn running(&self) -> bool {
        self.handle
    }

    /// The worker's name.
    pub closed spec fn name_view(&self) -> Seq<char> {
        self.name@
    }

    /// The batch size the consumer drains with.
    pub closed spec fn batch(&self) -> int {
        self.batch_size as int
    }

    pub open spec fn wf(&self) -> bool {
        &&& self.sched().wf()
        &&& self.batch() >= 1
    }

    /// Create a worker in the not-started state with an empty queue.
    pub fn new(name: String) -> (w: Worker<T>)
        ensures
            w.wf(),
            w.name_view() == name@,
            !w.started(),
            !w.running(),
            w.batch() == 1,
            w.sched().queue() == Seq::<T>::empty(),
            w.sched().count() == 0,
            !w.sched().is_stopped(),
    {
        Worker {
            name,
            scheduler: Scheduler::new(),
            receiver_held: true,
            handle: false,
            batch_size: 1,
        }
    }

    /// Start the worker with a per-task handler: each drained batch holds one
    /// task. Starting an already-started worker is a no-op.
    pub fn start(&mut self)
        requires
            old(self).wf(),
        ensures
            final(self).wf(),
            old(self).started() ==> *final(self) == *old(self),
            !old(self).started() ==> final(self).started() && final(self).running()
                && final(self).batch() == 1,
            final(self).sched() == old(self).sched(),
            final(self).name_view() == old(self).name_view(),
    {
        self.start_batch(1)
    }

    /// Start the worker with a batch handler draining up to `batch_size`
    /// tasks per wake-up; a batch size of zero degenerates to one task per
    /// wake-up. Starting an already-started worker is a no-op. In the running
    /// system this spawns the consumer thread — the one failure source, which
    /// lies outside the model; here the consumer's work is done by
    /// `run_pending`.
    pub fn start_batch(&mut self, batch_size: usize)
        requires
            old(self).wf(),
        ensures
            final(self).wf(),
            old(self).started() ==> *final(self) == *old(self),
            !old(self).started() ==> final(self).started() && final(self).running()
                && final(self).batch() == effective_batch(batch_size) as int,
            final(self).sched() == old(self).sched(),
            final(self).name_view() == old(self).name_view(),
    {
        if !self.receiver_held {
            // Already started: keep the running consumer as it is.
            return;
        }
        self.receiver_held = false;
        self.handle = true;
        self.batch_size = if batch_size == 0 {
            1
        } else {
            batch_size
        };
    }

    /// Schedule a task to run on the worker; rejected with the task handed
    /// back once the worker has stopped.
    pub fn schedule(&mut self, task: T) -> (r: Result<(), Stopped<T>>)
        requires
            old(self).wf(),
        ensures
            final(self).wf(),
            schedule_transition(old(self).sched(), final(self).sched(), task, r),
            final(self).started() == old(self).started(),
            final(self).running() == old(self).running(),
            final(self).name_view() == old(self).name_view(),
            final(self).batch() == old(self).batch(),
    {
        self.scheduler.schedule(task)
    }

    /// Check whether the worker cannot handle a task immediately: true before
    /// any consumer exists or after it was stopped, and true while accepted
    /// tasks wait to be pulled.
    pub fn is_busy(&self) -> (r: bool)
        ensures
            r == (!self.running() || self.sched().busy()),
    {
        !self.handle || self.scheduler.is_busy()
    }

    /// The worker's name.
    pub fn name(&self) -> (n: &str)
        ensures
            n@ == self.name_view(),
    {
        self.name.as_str()
    }

    /// Stop the worker: submit the stop sentinel and give up the consumer's
    /// handle, telling the caller whether there was one. Tasks already queued
    /// ahead of the sentinel are still drained and run; tasks submitted after
    /// it are rejected.
    pub fn stop(&mut self) -> (had: bool)
        requires
            old(self).wf(),
        ensures
            final(self).wf(),
            had == old(self).running(),
            !old(self).running() ==> *final(self) == *old(self),
            old(self).running() ==> {
                &&& final(self).sched().is_stopped()
                &&& final(self).sched().queue() == old(self).sched().queue()
                &&& final(self).sched().count() == old(self).sched().count()
                &&& !final(self).running()
                &&& final(self).started() == old(self).started()
                &&& final(self).name_view() == old(self).name_view()
                &&& final(self).batch() == old(self).batch()
            },
    {
        if !self.handle {
            return false;
        }
        self.scheduler.stopped = true;
        self.handle = false;
        true
    }

    /// The consumer's work, which the running system does on its own thread:
    /// drain and run everything queued so far, batch by batch.
    pub fn run_pending<R: BatchRunnable<T>>(&mut self, runner: &mut R)
        requires
            old(self).wf(),
            old(self).started(),
        ensures
            final(self).wf(),
            final(self).sched().queue().len() == 0,
            final(self).sched().count() == 0,
            final(self).sched().is_stopped() == old(self).sched().is_stopped(),
            final(self).started() == old(self).started(),
            final(self).running() == old(self).running(),
            final(self).name_view() == old(self).name_view(),
            final(self).batch() == old(self).batch(),
    {
        poll(runner, &mut self.scheduler, self.batch_size);
    }
}

/// Law: a drain cycle hands the handler a prefix of the queue and leaves the
/// rest, so the batch followed by what remains queued is exactly the accepted
/// tasks in submission order — every accepted task is delivered once, none is
/// reordered, duplicated or lost.
pub proof fn lemma_batch_delivery_exact<T>(
    pre: Scheduler<T>,
    post: Scheduler<T>,
    tasks: Vec<T>,
    keep_going: bool,
    batch_size: usize,
)
    requires
        pull_transition(pre, post, Pulled::Batch { tasks, keep_going }, batch_size),
    ensures
        tasks@ + post.queue() == pre.queue(),
        pre.queue().to_multiset() == tasks@.to_multiset().add(post.queue().to_multiset()),
{
    assert(tasks@ + post.queue() =~= pre.queue());
    vstd::seq_lib::lemma_multiset_commutative(tasks@, post.queue());
}

/// A run of the consumer: `states` are the scheduler states it passed
/// through, and `batches[i]` is the batch the i-th drain cycle handed the
/// handler on the way from `states[i]` to `states[i + 1]`.
pub open spec fn drain_history<T>(
    states: Seq<Scheduler<T>>,
    batches: Seq<Seq<T>>,
    batch_size: usize,
) -> bool {
    &&& states.len() == batches.len() + 1
    &&& forall|i: int|
        0 <= i < batches.len() ==> batch_transition(states[i], states[i + 1], batches[i], batch_size)
}

/// Law: over any run of drain cycles, the batches handed to the handler
/// concatenate, in order, to the tasks the queue held at the start, short
/// only of those still waiting at the end. So every task queued before a run
/// that drains the queue is delivered to the handler exactly once, in
/// submission order.
pub proof fn lemma_history_delivers_in_order<T>(
    states: Seq<Scheduler<T>>,
    batches: Seq<Seq<T>>,
    batch_size: usize,
)
    requires
        drain_history(states, batches, batch_size),
    ensures
        batches.flatten() + states.last().queue() == states.first().queue(),
        states.first().queue().to_multiset() == batches.flatten().to_multiset().add(
            states.last().queue().to_multiset(),
        ),
    decreases batches.len(),
{
    vstd::seq_lib::lemma_multiset_commutative(batches.flatten(), states.last().queue());
    if batches.len() == 0 {
        assert(batches.flatten() + states.last().queue() =~= states.first().queue());
    } else {
        let tail_states = states.skip(1);
        let tail_batches = batches.skip(1);
        assert forall|i: int| 0 <= i < tail_batches.len() implies batch_transition(
            tail_states[i],
            tail_states[i + 1],
            tail_batches[i],
            batch_size,
        ) by {
            assert(batch_transition(states[i + 1], states[i + 2], batches[i + 1], batch_size));
        }
        lemma_history_delivers_in_order(tail_states, tail_batches, batch_size);
        assert(batch_transition(states[0], states[1], batches[0], batch_size));
        assert(states[0].queue() =~= batches[0] + states[1].queue());
        assert(tail_batches =~= batches.drop_first());
        assert(tail_states.first() == states[1]);
        assert(tail_states.last() == states.last());
        assert(batches.flatten() + states.last().queue() =~= states.first().queue());
    }
}

/// Law: any accepted submission leaves the worker busy; it stays so until a
/// drain cycle pulls the queue.
pub proof fn lemma_busy_after_schedule<T>(pre: Scheduler<T>, post: Scheduler<T>, task: T)
    requires
        schedule_transition(pre, post, task, Ok(())),
        pre.wf(),
    ensures
        post.busy(),
{
}

/// Law: once a drain cycle has pulled every queued task the worker reports
/// idle, even though the handler may still be running the batch it was
/// handed.
pub proof fn lemma_idle_after_full_drain<T>(
    pre: Scheduler<T>,
    post: Scheduler<T>,
    tasks: Vec<T>,
    keep_going: bool,
    batch_size: usize,
)
    requires
        pull_transition(pre, post, Pulled::Batch { tasks, keep_going }, batch_size),
        post.wf(),
        tasks@.len() == pre.queue().len(),
    ensures
        !post.busy(),
{
}

/// Law: after a stop, a submission is rejected with the task handed back
/// unchanged, and the queue no longer changes.
pub proof fn lemma_rejected_after_stop<T>(
    pre: Scheduler<T>,
    post: Scheduler<T>,
    task: T,
    r: Result<(), Stopped<T>>,
)
    requires
        pre.is_stopped(),
        schedule_transition(pre, post, task, r),
    ensures
        r matches Err(Stopped(t)) && t == task,
        post == pre,
{
}

} // verus!
