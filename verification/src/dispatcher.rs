//! The Grand Central Dispatch side of the dispatcher: queue priorities,
//! delays, and the per-thread task timing records.
use vstd::prelude::*;
use std::time::Duration;

verus! {

/// Queue priority levels understood by the dispatcher.
#[derive(Clone, Copy, Debug, PartialEq, Eq)]
pub enum Priority {
    RealtimeAudio,
    High,
    Medium,
    Low,
}

/// GCD global queue identifier for high priority work.
pub const DISPATCH_QUEUE_PRIORITY_HIGH: isize = 2;
/// GCD global queue identifier for default priority work.
pub const DISPATCH_QUEUE_PRIORITY_DEFAULT: isize = 0;
/// GCD global queue identifier for low priority work.
pub const DISPATCH_QUEUE_PRIORITY_LOW: isize = -2;

/// Dispatcher that forwards runnables to Grand Central Dispatch queues.
pub struct IosDispatcher;

/// The GCD delta for a delay of `nanos` nanoseconds: the delay itself,
/// saturated at `i64::MAX`.
pub open spec fn spec_dispatch_delta(nanos: u128) -> int {
    if nanos > i64::MAX { i64::MAX as int } else { nanos as int }
}

impl IosDispatcher {
    pub fn new() -> (d: Self) {
        IosDispatcher
    }

    /// The GCD global queue a priority dispatches to. Realtime audio work
    /// never goes through a queue (it gets its own thread).
    pub fn queue_priority(priority: Priority) -> (q: isize)
        requires
            priority != Priority::RealtimeAudio,
        ensures
            priority == Priority::High ==> q == DISPATCH_QUEUE_PRIORITY_HIGH,
            priority == Priority::Medium ==> q == DISPATCH_QUEUE_PRIORITY_DEFAULT,
            priority == Priority::Low ==> q == DISPATCH_QUEUE_PRIORITY_LOW,
    {
        match priority {
            Priority::High => DISPATCH_QUEUE_PRIORITY_HIGH,
            Priority::Medium => DISPATCH_QUEUE_PRIORITY_DEFAULT,
            _ => DISPATCH_QUEUE_PRIORITY_LOW,
        }
    }

    /// Converts a delay into the `i64` nanosecond delta `dispatch_time`
    /// takes, saturating at `i64::MAX`.
    pub fn duration_to_dispatch_delta(duration: Duration) -> (delta: i64)
        ensures
            delta == spec_dispatch_delta(spec_duration_nanos(duration)),
    {
        Self::dispatch_delta_from_nanos(duration_as_nanos(&duration))
    }

    /// Converts a delay in nanoseconds into the `i64` delta that
    /// `dispatch_time` takes, saturating at `i64::MAX`.
    pub fn dispatch_delta_from_nanos(nanos: u128) -> (delta: i64)
        ensures
            delta == spec_dispatch_delta(nanos),
    {
        if nanos > i64::MAX as u128 {
            i64::MAX
        } else {
            nanos as i64
        }
    }
}

/// What `Duration::as_nanos` returns for a duration: the total number of
/// whole nanoseconds it contains.
pub uninterp spec fn spec_duration_nanos(duration: Duration) -> u128;

/// `Duration::as_nanos`.
#[verifier::external_body]
fn duration_as_nanos(duration: &Duration) -> (nanos: u128)
    ensures
        nanos == spec_duration_nanos(*duration),
{
    duration.as_nanos()
}

/// A longer delay never yields a shorter dispatch delta.
pub proof fn lemma_dispatch_delta_monotonic(a: u128, b: u128)
    requires
        a <= b,
    ensures
        0 <= spec_dispatch_delta(a) <= spec_dispatch_delta(b) <= i64::MAX,
{
}

/// One task's timing record: where it was spawned, when it started, and
/// when it ended (once it has).
#[derive(Clone, Copy, Debug, PartialEq, Eq, Structural)]
pub struct TaskTiming {
    pub location: u64,
    pub start: u64,
    pub end: Option<u64>,
}

/// Records the start of a task: a new record is appended unless the most
/// recent record comes from the same spawn location, which is then reused.
pub fn record_task_start(timings: &mut Vec<TaskTiming>, location: u64, start: u64)
    ensures
        old(timings)@.len() > 0 && old(timings)@.last().location == location ==> final(timings)@
            == old(timings)@,
        !(old(timings)@.len() > 0 && old(timings)@.last().location == location)
            ==> final(timings)@ == old(timings)@.push(TaskTiming { location, start, end: None }),
{
    let n = timings.len();
    if n > 0 && timings[n - 1].location == location {
        return;
    }
    timings.push(TaskTiming { location, start, end: None });
}

/// Records the end of the task that ran last: the most recent record, if
/// any, gets the end time.
pub fn record_task_end(timings: &mut Vec<TaskTiming>, end: u64)
    ensures
        old(timings)@.len() == 0 ==> final(timings)@ == old(timings)@,
        old(timings)@.len() > 0 ==> final(timings)@ == old(timings)@.update(
            old(timings)@.len() - 1,
            TaskTiming { end: Some(end), ..old(timings)@.last() },
        ),
{
    let n = timings.len();
    if n > 0 {
        let mut last = timings[n - 1];
        last.end = Some(end);
        timings.set(n - 1, last);
    }
}

} // verus!
