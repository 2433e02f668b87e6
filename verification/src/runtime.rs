//! The decisions of a small task runtime, one step at a time: a timer that
//! completes on its second poll, a request that starts on its first, and a
//! run queue that cycles through unfinished tasks. The caller performs the
//! waiting and the polling and reports back.

use std::collections::VecDeque;
use std::time::Duration;
use vstd::prelude::*;

verus! {

/// What polling a task says about it.
#[derive(Debug, PartialEq, Eq, Structural, Clone, Copy)]
pub enum Poll {
    Ready,
    Pending,
}

/// What the caller owes a [`Delay`] after polling it.
pub enum DelayStep {
    /// The delay is over.
    Ready,
    /// The delay is pending: wake the task once the duration has passed.
    WakeAfter(Duration),
}

/// A timer that is pending on its first poll and ready from then on.
pub struct Delay {
    duration: Duration,
    elapsed: bool,
}

impl Delay {
    /// How long the timer waits.
    pub closed spec fn duration(&self) -> Duration {
        self.duration
    }

    /// Whether the timer has been polled.
    pub closed spec fn elapsed(&self) -> bool {
        self.elapsed
    }

    /// A timer for `duration` that has not been polled.
    pub fn new(duration: Duration) -> (delay: Self)
        ensures
            delay.duration() == duration,
            !delay.elapsed(),
    {
        Delay { duration, elapsed: false }
    }

    /// Polls the timer: the first poll asks for a wake-up after the
    /// duration, every later one reports that the timer is done.
    pub fn poll(&mut self) -> (step: DelayStep)
        ensures
            final(self).duration() == old(self).duration(),
            final(self).elapsed(),
            old(self).elapsed() ==> step is Ready,
            !old(self).elapsed() ==> step == DelayStep::WakeAfter(old(self).duration()),
    {
        if self.elapsed {
            DelayStep::Ready
        } else {
            self.elapsed = true;
            DelayStep::WakeAfter(self.duration)
        }
    }
}

/// What the caller owes a [`DelayedHttpRequest`] after polling it.
pub enum RequestStep {
    /// Send the request to the given address, then wake the task.
    Start(String),
    /// Nothing to do: the request is under way.
    Wait,
}

/// A request that is sent when first polled. It never reports completion
/// itself; the caller learns of that from the wake-up.
pub struct DelayedHttpRequest {
    url: String,
    started: bool,
}

impl DelayedHttpRequest {
    /// The address the request goes to.
    pub closed spec fn url(&self) -> Seq<char> {
        self.url@
    }

    /// Whether the request has been sent.
    pub closed spec fn started(&self) -> bool {
        self.started
    }

    /// A request for `url` that has not been sent.
    pub fn new(url: String) -> (request: Self)
        ensures
            request.url() == url@,
            !request.started(),
    {
        DelayedHttpRequest { url, started: false }
    }

    /// Polls the request: the first poll asks for it to be sent, every
    /// later one asks for nothing.
    pub fn poll(&mut self) -> (step: RequestStep)
        ensures
            final(self).url() == old(self).url(),
            final(self).started(),
            old(self).started() ==> step is Wait,
            !old(self).started() ==> (step matches RequestStep::Start(url) && url@ == old(
                self,
            ).url()),
    {
        if !self.started {
            self.started = true;
            RequestStep::Start(self.url.clone())
        } else {
            RequestStep::Wait
        }
    }
}

/// A queue of tasks, named by number, that are waiting to be polled.
pub struct Executor {
    tasks: VecDeque<usize>,
}

impl View for Executor {
    type V = Seq<usize>;

    /// The waiting tasks, the next to be polled first.
    closed spec fn view(&self) -> Seq<usize> {
        self.tasks@
    }
}

impl Executor {
    /// An executor with no tasks.
    pub fn new() -> (executor: Self)
        ensures
            executor@ == Seq::<usize>::empty(),
    {
        Executor { tasks: VecDeque::new() }
    }

    /// Queues `task` behind the tasks already waiting.
    pub fn spawn(&mut self, task: usize)
        ensures
            final(self)@ == old(self)@.push(task),
    {
        self.tasks.push_back(task);
    }

    /// The queue after its first task was polled with `outcome`: a finished
    /// task leaves, an unfinished one goes to the back.
    pub open spec fn after_poll(queue: Seq<usize>, outcome: Poll) -> Seq<usize>
        recommends
            queue.len() > 0,
    {
        match outcome {
            Poll::Ready => queue.drop_first(),
            Poll::Pending => queue.drop_first().push(queue[0]),
        }
    }

    /// Takes the first waiting task, polls it with `poll` and requeues it if
    /// it is still pending. Returns whether there was a task to poll.
    pub fn step<F: FnOnce(usize) -> Poll>(&mut self, poll: F) -> (polled: bool)
        requires
            old(self)@.len() > 0 ==> call_requires(poll, (old(self)@[0],)),
        ensures
            polled == (old(self)@.len() > 0),
            !polled ==> final(self)@ == old(self)@,
            polled ==> exists|outcome: Poll|
                call_ensures(poll, (old(self)@[0],), outcome) && final(self)@ == Self::after_poll(
                    old(self)@,
                    outcome,
                ),
    {
        match self.tasks.pop_front() {
            None => false,
            Some(task) => {
                let outcome = poll(task);
                match outcome {
                    Poll::Ready => {},
                    Poll::Pending => {
                        self.tasks.push_back(task);
                    },
                }
                assert(call_ensures(poll, (old(self)@[0],), outcome) && self@ == Self::after_poll(
                    old(self)@,
                    outcome,
                ));
                true
            },
        }
    }

    /// The number of waiting tasks.
    pub fn len(&self) -> (n: usize)
        ensures
            n == self@.len(),
    {
        self.tasks.len()
    }
}

} // verus!
