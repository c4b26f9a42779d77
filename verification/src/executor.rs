//! A two-priority task executor: where a task is queued, and in which order a worker
//! looks for its next task.

use async_task::Runnable;
use vstd::prelude::*;

use crate::queue::QueueEntry;
use crate::queue::QueueExit;
use crate::queue::TaskQueue;

verus! {

/// The priority of a task, and the kind of worker that prefers it.
#[derive(Debug, Clone, Copy, PartialEq, Eq, Structural)]
pub enum FutureType {
    High,
    Low,
}

impl FutureType {
    /// The other priority.
    pub open spec fn opposite(self) -> FutureType {
        match self {
            FutureType::High => FutureType::Low,
            FutureType::Low => FutureType::High,
        }
    }

    /// The other priority.
    pub fn other(self) -> (other: FutureType)
        ensures
            other == self.opposite(),
    {
        match self {
            FutureType::High => FutureType::Low,
            FutureType::Low => FutureType::High,
        }
    }
}

impl Default for FutureType {
    /// A task is of low priority unless it is said to be of high.
    fn default() -> (order: FutureType)
        ensures
            order == FutureType::Low,
    {
        FutureType::Low
    }
}

/// How long a worker that found both queues empty sleeps, in milliseconds.
pub const IDLE_SLEEP_MILLIS: u64 = 100;

/// What a worker does next.
pub enum WorkerStep<T> {
    /// Try to take a task out of this queue.
    TryRecv(FutureType),
    /// Run `runnable`, which was taken out of the queue of priority `task`.
    Run { worker: FutureType, task: FutureType, runnable: T },
    /// Sleep for this many milliseconds, then start over.
    Sleep(u64),
}

/// What a worker does after it tried the queue `tried` and was given `taken`.
pub open spec fn after_try<T>(
    worker: FutureType,
    tried: FutureType,
    taken: Option<T>,
) -> WorkerStep<T> {
    match taken {
        Some(runnable) => WorkerStep::Run { worker, task: tried, runnable },
        None => if tried == worker {
            WorkerStep::TryRecv(worker.opposite())
        } else {
            WorkerStep::Sleep(IDLE_SLEEP_MILLIS)
        },
    }
}

/// What a whole pass of a worker comes to, where `own` and `other` are what its own queue
/// and the other one give it.
pub open spec fn worker_pass<T>(
    worker: FutureType,
    own: Option<T>,
    other: Option<T>,
) -> WorkerStep<T> {
    match after_try(worker, worker, own) {
        WorkerStep::TryRecv(queue) => after_try(worker, queue, other),
        step => step,
    }
}

/// Continues a pass of a worker that tried the queue `tried` and was given `taken`:
/// a task is run, an empty own queue sends it to the other one, and two empty
/// queues to sleep.
pub fn continue_pass<T>(worker: FutureType, tried: FutureType, taken: Option<T>) -> (step:
    WorkerStep<T>)
    ensures
        step == after_try(worker, tried, taken),
{
    match taken {
        Some(runnable) => WorkerStep::Run { worker, task: tried, runnable },
        None => if tried == worker {
            WorkerStep::TryRecv(worker.other())
        } else {
            WorkerStep::Sleep(IDLE_SLEEP_MILLIS)
        },
    }
}

/// Why a task could not be queued.
#[derive(Debug, Clone, Copy, PartialEq, Eq, Structural)]
pub enum ScheduleError {
    /// Nobody can take tasks out of the queue any more.
    Disconnected,
}

/// The two task queues of the executor.
pub struct TaskQueues {
    high: TaskQueue,
    low: TaskQueue,
}

impl TaskQueues {
    /// Makes the two queues.
    pub fn new() -> (queues: TaskQueues)
        ensures
            call_ensures(flume::unbounded::<Runnable>, (), queues.queue_of(FutureType::High).ends()),
            call_ensures(flume::unbounded::<Runnable>, (), queues.queue_of(FutureType::Low).ends()),
    {
        TaskQueues { high: TaskQueue::new(), low: TaskQueue::new() }
    }

    /// The queue that holds the tasks of a priority.
    pub closed spec fn queue_of(self, order: FutureType) -> TaskQueue {
        match order {
            FutureType::High => self.high,
            FutureType::Low => self.low,
        }
    }

    /// The ends through which tasks are queued.
    pub fn scheduler(&self) -> (scheduler: Scheduler<'_>)
        ensures
            forall|order: FutureType|
                {
                    &&& (#[trigger] scheduler.entry_of(order)).queue() == self.queue_of(
                        order,
                    ).ends().0
                    &&& scheduler.entry_of(order).puts() == Seq::<(Runnable, bool)>::empty()
                },
    {
        Scheduler { high: self.high.entry(), low: self.low.entry() }
    }

    /// The ends through which one worker takes its tasks.
    pub fn worker_ends(&self) -> (ends: WorkerEnds<'_>)
        ensures
            forall|order: FutureType|
                {
                    &&& (#[trigger] ends.exit_of(order)).queue() == self.queue_of(order).ends().1
                    &&& ends.exit_of(order).tries() == Seq::<Option<Runnable>>::empty()
                },
    {
        WorkerEnds { high: self.high.exit(), low: self.low.exit() }
    }
}

/// The ends through which tasks are queued.
pub struct Scheduler<'a> {
    high: QueueEntry<'a>,
    low: QueueEntry<'a>,
}

impl<'a> Scheduler<'a> {
    /// The end into which a task of the given priority is put.
    pub closed spec fn entry_of(self, order: FutureType) -> QueueEntry<'a> {
        match order {
            FutureType::High => self.high,
            FutureType::Low => self.low,
        }
    }

    /// Queues a task by its priority: it goes into that queue, once, and nothing goes into
    /// the other. It fails where the queue does not take the task.
    pub fn schedule(&mut self, order: FutureType, runnable: Runnable) -> (sent: Result<
        (),
        ScheduleError,
    >)
        ensures
            final(self).entry_of(order).queue() == old(self).entry_of(order).queue(),
            final(self).entry_of(order).puts() == old(self).entry_of(order).puts().push(
                (runnable, sent is Ok),
            ),
            final(self).entry_of(order.opposite()) == old(self).entry_of(order.opposite()),
    {
        let sent = match order {
            FutureType::High => self.high.put(runnable),
            FutureType::Low => self.low.put(runnable),
        };
        match sent {
            Ok(()) => Ok(()),
            Err(_) => Err(ScheduleError::Disconnected),
        }
    }
}

/// The ends through which one worker takes its tasks.
pub struct WorkerEnds<'a> {
    high: QueueExit<'a>,
    low: QueueExit<'a>,
}

impl<'a> WorkerEnds<'a> {
    /// The end out of which a task of the given priority is taken.
    pub closed spec fn exit_of(self, order: FutureType) -> QueueExit<'a> {
        match order {
            FutureType::High => self.high,
            FutureType::Low => self.low,
        }
    }

    /// Tries to take a task out of the queue of a priority.
    fn try_queue(&mut self, order: FutureType) -> (taken: Option<Runnable>)
        ensures
            final(self).exit_of(order).queue() == old(self).exit_of(order).queue(),
            final(self).exit_of(order).tries() == old(self).exit_of(order).tries().push(taken),
            final(self).exit_of(order.opposite()) == old(self).exit_of(order.opposite()),
    {
        match order {
            FutureType::High => self.high.try_take(),
            FutureType::Low => self.low.try_take(),
        }
    }

    /// Goes through one pass of a worker: one try at its own queue, then, only if that gave
    /// nothing, one try at the other. What comes back is the task that was taken, to be run,
    /// or, where none was, the time to sleep.
    pub fn next_step(&mut self, worker: FutureType) -> (step: WorkerStep<Runnable>)
        ensures
            forall|order: FutureType|
                (#[trigger] final(self).exit_of(order)).queue() == old(self).exit_of(
                    order,
                ).queue(),
            exists|own: Option<Runnable>, other: Option<Runnable>|
                {
                    &&& final(self).exit_of(worker).tries() == old(self).exit_of(
                        worker,
                    ).tries().push(own)
                    &&& final(self).exit_of(worker.opposite()).tries() == if own is None {
                        old(self).exit_of(worker.opposite()).tries().push(other)
                    } else {
                        old(self).exit_of(worker.opposite()).tries()
                    }
                    &&& step == #[trigger] worker_pass(worker, own, other)
                },
    {
        let own = self.try_queue(worker);
        let ghost seen = own;
        let step = match continue_pass(worker, worker, own) {
            WorkerStep::TryRecv(queue) => {
                let other = self.try_queue(queue);
                let ghost seen_other = other;
                let step = continue_pass(worker, queue, other);
                assert(step == worker_pass(worker, seen, seen_other));
                step
            },
            step => {
                assert(step == worker_pass(worker, seen, seen));
                step
            },
        };
        assert forall|order: FutureType|
            (#[trigger] self.exit_of(order)).queue() == old(self).exit_of(order).queue() by {
            assert(order == worker || order == worker.opposite());
        }
        step
    }
}

/// A pass of a worker ends in a task or in sleep, never in another try. It sleeps only
/// where both queues are empty. It runs a task of its own queue where there is one, and
/// one of the other queue only where its own is empty, so that every worker, of either
/// kind, serves both queues.
pub proof fn worker_serves_both_queues<T>(worker: FutureType, own: Option<T>, other: Option<T>)
    ensures
        ({
            let step = worker_pass(worker, own, other);
            &&& step !is TryRecv
            &&& step is Sleep <==> own is None && other is None
            &&& step == WorkerStep::<T>::Sleep(IDLE_SLEEP_MILLIS) <==> step is Sleep
            &&& own matches Some(runnable) ==> step == (WorkerStep::Run {
                worker,
                task: worker,
                runnable,
            })
            &&& own is None && other is Some ==> step == (WorkerStep::Run {
                worker,
                task: worker.opposite(),
                runnable: other.unwrap(),
            })
        }),
{
}

/// There are two priorities, and each is the other of the other one.
pub proof fn priorities_are_two(order: FutureType, other: FutureType)
    requires
        call_ensures(FutureType::other, (order,), other),
    ensures
        order == FutureType::High <==> other == FutureType::Low,
        order == FutureType::Low <==> other == FutureType::High,
{
}

/// A worker runs the task that it was given, as one of the queue that it tried. Given none,
/// it tries the other queue where it tried its own, and sleeps 100 milliseconds where it
/// tried the other.
pub proof fn worker_goes_by_what_it_was_given<T>(
    worker: FutureType,
    tried: FutureType,
    taken: Option<T>,
    step: WorkerStep<T>,
)
    requires
        call_ensures(continue_pass::<T>, (worker, tried, taken), step),
    ensures
        taken matches Some(task) ==> step == (WorkerStep::Run { worker, task: tried, runnable: task }),
        taken is None && tried != worker ==> step == WorkerStep::<T>::Sleep(100),
        taken is None && tried == worker ==> (step matches WorkerStep::TryRecv(queue) && queue
            != worker),
{
}

/// In one pass a worker tries its own queue once, and runs the task that this gave. Only
/// where it gave none does it try the other queue, once, and run the task that this gave;
/// and only where neither gave any does it sleep, for 100 milliseconds. So no task is taken
/// that is not run, and none is left alone that was there.
pub proof fn pass_runs_what_it_takes(
    ends: &mut WorkerEnds<'_>,
    worker: FutureType,
    other: FutureType,
    step: WorkerStep<Runnable>,
)
    requires
        other != worker,
        call_ensures(WorkerEnds::next_step, (ends, worker), step),
    ensures
        final(ends).exit_of(worker).queue() == old(ends).exit_of(worker).queue(),
        final(ends).exit_of(other).queue() == old(ends).exit_of(other).queue(),
        match step {
            WorkerStep::Run { worker: runner, task, runnable } => {
                &&& runner == worker
                &&& if task == worker {
                    &&& final(ends).exit_of(worker).tries() == old(ends).exit_of(
                        worker,
                    ).tries().push(Some(runnable))
                    &&& final(ends).exit_of(other).tries() == old(ends).exit_of(other).tries()
                } else {
                    &&& final(ends).exit_of(worker).tries() == old(ends).exit_of(
                        worker,
                    ).tries().push(None)
                    &&& final(ends).exit_of(other).tries() == old(ends).exit_of(
                        other,
                    ).tries().push(Some(runnable))
                }
            },
            WorkerStep::Sleep(millis) => {
                &&& millis == 100
                &&& final(ends).exit_of(worker).tries() == old(ends).exit_of(worker).tries().push(
                    None,
                )
                &&& final(ends).exit_of(other).tries() == old(ends).exit_of(other).tries().push(
                    None,
                )
            },
            WorkerStep::TryRecv(_) => false,
        },
{
    assert(other == worker.opposite());
}

/// A task goes into the queue of its priority, and nothing goes into the other. It fails
/// exactly where that queue did not take the task.
pub proof fn task_goes_into_its_own_queue(
    scheduler: &mut Scheduler<'_>,
    order: FutureType,
    other: FutureType,
    runnable: Runnable,
    sent: Result<(), ScheduleError>,
)
    requires
        other != order,
        call_ensures(Scheduler::schedule, (scheduler, order, runnable), sent),
    ensures
        final(scheduler).entry_of(order).queue() == old(scheduler).entry_of(order).queue(),
        final(scheduler).entry_of(order).puts() == old(scheduler).entry_of(order).puts().push(
            (runnable, sent is Ok),
        ),
        final(scheduler).entry_of(other) == old(scheduler).entry_of(other),
{
    assert(other == order.opposite());
}

/// What is queued by its priority comes out at the workers' ends of that priority: both are
/// ends of one channel.
pub proof fn ends_belong_together(
    queues: TaskQueues,
    scheduler: Scheduler<'_>,
    ends: WorkerEnds<'_>,
    order: FutureType,
)
    requires
        call_ensures(TaskQueues::new, (), queues),
        call_ensures(TaskQueues::scheduler, (&queues,), scheduler),
        call_ensures(TaskQueues::worker_ends, (&queues,), ends),
    ensures
        call_ensures(
            flume::unbounded::<Runnable>,
            (),
            (scheduler.entry_of(order).queue(), ends.exit_of(order).queue()),
        ),
        scheduler.entry_of(order).puts() == Seq::<(Runnable, bool)>::empty(),
        ends.exit_of(order).tries() == Seq::<Option<Runnable>>::empty(),
{
    let both = queues.queue_of(order).ends();
    assert(both == (scheduler.entry_of(order).queue(), ends.exit_of(order).queue()));
}

} // verus!
