//! A queue of tasks: what is put into it and taken out of it, by whoever holds an end of it.

use async_task::Runnable;
use vstd::prelude::*;

verus! {

/// The handle of a task that is ready to run. Opaque: it is only passed on.
#[verifier::external_type_specification]
#[verifier::external_body]
#[verifier::reject_recursive_types(M)]
pub struct ExRunnable<M>(Runnable<M>);

/// The sending end of a channel. Opaque: it is only passed on.
#[verifier::external_type_specification]
#[verifier::external_body]
#[verifier::reject_recursive_types(T)]
pub struct ExQueueSender<T>(flume::Sender<T>);

/// The receiving end of a channel. Opaque: it is only passed on.
#[verifier::external_type_specification]
#[verifier::external_body]
#[verifier::reject_recursive_types(T)]
pub struct ExQueueReceiver<T>(flume::Receiver<T>);

/// The error of a channel that took no item. Opaque: only that it came is used.
#[verifier::external_type_specification]
#[verifier::external_body]
#[verifier::reject_recursive_types(T)]
pub struct ExSendError<T>(flume::SendError<T>);

/// `flume::unbounded` makes the two ends of a new and empty channel without a bound. Nothing
/// is claimed of the ends by themselves: what a channel holds changes behind them.
pub assume_specification<T>[ flume::unbounded::<T> ]() -> (ends: (
    flume::Sender<T>,
    flume::Receiver<T>,
));

/// A queue of tasks: a channel without a bound.
pub struct TaskQueue {
    sender: flume::Sender<Runnable>,
    receiver: flume::Receiver<Runnable>,
}

impl TaskQueue {
    /// The two ends of the channel.
    pub closed spec fn ends(self) -> (flume::Sender<Runnable>, flume::Receiver<Runnable>) {
        (self.sender, self.receiver)
    }

    /// Makes a queue.
    pub fn new() -> (queue: TaskQueue)
        ensures
            call_ensures(flume::unbounded::<Runnable>, (), queue.ends()),
    {
        let (sender, receiver) = flume::unbounded();
        TaskQueue { sender, receiver }
    }

    /// An end to put tasks in, with nothing put in so far.
    pub fn entry(&self) -> (entry: QueueEntry<'_>)
        ensures
            entry.queue() == self.ends().0,
            entry.puts() == Seq::<(Runnable, bool)>::empty(),
    {
        QueueEntry { sender: &self.sender, puts: Ghost(Seq::empty()) }
    }

    /// An end to take tasks out, with no try so far.
    pub fn exit(&self) -> (exit: QueueExit<'_>)
        ensures
            exit.queue() == self.ends().1,
            exit.tries() == Seq::<Option<Runnable>>::empty(),
    {
        QueueExit { receiver: &self.receiver, tries: Ghost(Seq::empty()) }
    }
}

/// An end of a queue into which tasks are put, with the record of what was put in here.
pub struct QueueEntry<'a> {
    sender: &'a flume::Sender<Runnable>,
    puts: Ghost<Seq<(Runnable, bool)>>,
}

impl<'a> QueueEntry<'a> {
    /// The queue into which tasks are put.
    pub closed spec fn queue(self) -> flume::Sender<Runnable> {
        *self.sender
    }

    /// The tasks that were put in here, in their order, each with whether the queue took it.
    pub closed spec fn puts(self) -> Seq<(Runnable, bool)> {
        self.puts@
    }

    /// Calls `flume::Sender::send`, which puts a task at the end of the queue. It fails only
    /// where every receiving end is gone, which depends on other threads: whether it does is
    /// left open, and recorded. It would wait only where a channel has a bound, and that of a
    /// queue has none.
    #[verifier::external_body]
    pub(crate) fn put(&mut self, runnable: Runnable) -> (sent: Result<
        (),
        flume::SendError<Runnable>,
    >)
        ensures
            final(self).queue() == old(self).queue(),
            final(self).puts() == old(self).puts().push((runnable, sent is Ok)),
    {
        self.sender.send(runnable)
    }
}

/// An end of a queue out of which tasks are taken, with the record of every try made here.
pub struct QueueExit<'a> {
    receiver: &'a flume::Receiver<Runnable>,
    tries: Ghost<Seq<Option<Runnable>>>,
}

impl<'a> QueueExit<'a> {
    /// The queue out of which tasks are taken.
    pub closed spec fn queue(self) -> flume::Receiver<Runnable> {
        *self.receiver
    }

    /// What the tries made here gave, in their order: a task that is gone from the queue
    /// since, or nothing.
    pub closed spec fn tries(self) -> Seq<Option<Runnable>> {
        self.tries@
    }

    /// Calls `flume::Receiver::try_recv`, which takes the oldest task out of the queue,
    /// without waiting for one. Whether there is one depends on what other threads have
    /// done: what comes back is left open, and recorded.
    #[verifier::external_body]
    pub(crate) fn try_take(&mut self) -> (taken: Option<Runnable>)
        ensures
            final(self).queue() == old(self).queue(),
            final(self).tries() == old(self).tries().push(taken),
    {
        self.receiver.try_recv().ok()
    }
}

} // verus!
