//! The decisions of the process runner while it watches a child. The runner
//! itself lives with the caller: every tick it asks the child whether it is
//! still alive, reads the clock, and does what `watch` decides.

use vstd::prelude::*;

verus! {

/// The time between two looks at the child, in milliseconds.
pub const WATCH_INTERVAL_MS: u64 = 1000;

/// What the operating system said of the child at a tick.
#[derive(Debug, Clone, Copy, PartialEq, Eq, Structural)]
pub enum ChildStatus {
    /// The child is alive.
    Running,
    /// The child has ended, with or without success.
    Exited { success: bool },
    /// The child could not be asked.
    Unknown,
}

/// What the runner does at a tick.
#[derive(Debug, Clone, Copy, PartialEq, Eq, Structural)]
pub enum Watch {
    /// Watching is over: the child has ended, or it cannot be watched.
    Done,
    /// The child has outlived its limit: kill it, then wait for the next
    /// tick. A kill that fails is reported and changes nothing else.
    Kill,
    /// Wait for the next tick.
    Wait,
}

/// Whether a child that started at `started_sec` has outlived its limit at
/// `now_sec`, both in seconds since the epoch. A limit of zero is none.
pub open spec fn overdue(max_run_sec: i64, started_sec: u64, now_sec: u64) -> bool {
    max_run_sec != 0 && now_sec > started_sec + max_run_sec
}

/// What the runner does at a tick, by the child's status and the time.
pub open spec fn watch_decision(
    status: ChildStatus,
    max_run_sec: i64,
    started_sec: u64,
    now_sec: u64,
) -> Watch {
    match status {
        ChildStatus::Exited { success } => Watch::Done,
        ChildStatus::Unknown => Watch::Done,
        ChildStatus::Running => if overdue(max_run_sec, started_sec, now_sec) {
            Watch::Kill
        } else {
            Watch::Wait
        },
    }
}

/// Whether a child that started at `started_sec` has outlived its limit at
/// `now_sec`.
pub fn is_overdue(max_run_sec: i64, started_sec: u64, now_sec: u64) -> (r: bool)
    ensures
        r == overdue(max_run_sec, started_sec, now_sec),
{
    max_run_sec != 0 && (now_sec as i128) > (started_sec as i128) + (max_run_sec as i128)
}

/// What the runner does at a tick: it stops when the child has ended or
/// cannot be asked, kills a running child that has outlived its limit, and
/// waits otherwise.
pub fn watch(status: ChildStatus, max_run_sec: i64, started_sec: u64, now_sec: u64) -> (r: Watch)
    ensures
        r == watch_decision(status, max_run_sec, started_sec, now_sec),
{
    match status {
        ChildStatus::Exited { success } => Watch::Done,
        ChildStatus::Unknown => Watch::Done,
        ChildStatus::Running => if is_overdue(max_run_sec, started_sec, now_sec) {
            Watch::Kill
        } else {
            Watch::Wait
        },
    }
}

/// A limit is enforced at the first tick after it ran out, and not before:
/// with a limit of `max_run_sec` seconds, a tick that finds the child
/// running orders the kill exactly when more than that many seconds have
/// passed since the start. The ticks are one interval apart, so the order
/// comes within one interval of the deadline.
pub proof fn lemma_limit_enforced(max_run_sec: i64, started_sec: u64, now_sec: u64)
    requires
        max_run_sec > 0,
    ensures
        watch_decision(ChildStatus::Running, max_run_sec, started_sec, now_sec) == Watch::Kill
            <==> now_sec - started_sec > max_run_sec,
{
}

/// Without a limit no child is killed, however long it runs.
pub proof fn lemma_no_limit_no_kill(status: ChildStatus, started_sec: u64, now_sec: u64)
    ensures
        watch_decision(status, 0, started_sec, now_sec) != Watch::Kill,
{
}

} // verus!
