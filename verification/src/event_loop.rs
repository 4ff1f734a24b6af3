//! A simplified script event loop: task and microtask queues, and the timer calls.
use vstd::prelude::*;
use std::collections::VecDeque;
use std::time::Duration;

verus! {

/// A task in the event loop.
pub struct Task {
    pub delay: Duration,
}

/// A microtask in the event loop.
pub struct Microtask;

/// Script event loop: queued tasks and microtasks. No callback runs; running the
/// loop drains both queues.
pub struct EventLoop {
    task_queue: VecDeque<Task>,
    microtask_queue: VecDeque<Microtask>,
}

impl EventLoop {
    /// The delays of the queued tasks, oldest first.
    pub closed spec fn tasks(&self) -> Seq<Duration> {
        self.task_queue@.map_values(|t: Task| t.delay)
    }

    /// The number of queued microtasks.
    pub closed spec fn microtasks(&self) -> nat {
        self.microtask_queue@.len()
    }

    /// Create an event loop with empty queues.
    pub fn new() -> (r: Self)
        ensures
            r.tasks() == Seq::<Duration>::empty(),
            r.microtasks() == 0,
    {
        let r = EventLoop { task_queue: VecDeque::new(), microtask_queue: VecDeque::new() };
        assert(r.tasks() =~= Seq::<Duration>::empty());
        r
    }

    /// Queue a task to run after `delay`.
    pub fn schedule_task(&mut self, delay: Duration)
        ensures
            final(self).tasks() == old(self).tasks().push(delay),
            final(self).microtasks() == old(self).microtasks(),
    {
        self.task_queue.push_back(Task { delay });
        assert(self.tasks() =~= old(self).tasks().push(delay));
    }

    /// Queue a microtask.
    pub fn queue_microtask(&mut self)
        ensures
            final(self).tasks() == old(self).tasks(),
            final(self).microtasks() == old(self).microtasks() + 1,
    {
        self.microtask_queue.push_back(Microtask);
    }

    /// Run the loop: the microtasks first, then the tasks, until both queues are empty.
    pub fn run(&mut self) -> (r: Result<(), String>)
        ensures
            r is Ok,
            final(self).tasks() == Seq::<Duration>::empty(),
            final(self).microtasks() == 0,
    {
        while self.microtask_queue.pop_front().is_some()
            invariant
                true,
            decreases self.microtask_queue@.len(),
        {
        }
        while self.task_queue.pop_front().is_some()
            invariant
                self.microtask_queue@.len() == 0,
            decreases self.task_queue@.len(),
        {
        }
        assert(self.tasks() =~= Seq::<Duration>::empty());
        Ok(())
    }
}

/// Set a timeout: the timer ID, always 0, as no timer is kept.
pub fn set_timeout(delay_ms: u64) -> (r: u32)
    ensures
        r == 0,
{
    0
}

/// Set an interval: the timer ID, always 0, as no timer is kept.
pub fn set_interval(interval_ms: u64) -> (r: u32)
    ensures
        r == 0,
{
    0
}

/// Clear a timeout: nothing to do, as no timer is kept.
pub fn clear_timeout(timer_id: u32) {
}

/// Clear an interval: nothing to do, as no timer is kept.
pub fn clear_interval(timer_id: u32) {
}

} // verus!
