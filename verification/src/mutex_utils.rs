//! Recovery from poisoned locks.
//!
//! A lock is poisoned when its holder failed without releasing it.  The
//! value behind the lock is still there, and the gateway goes on with it
//! rather than fail in turn.  The functions here decide what becomes of
//! the outcome of an attempt to lock.

use vstd::prelude::*;

verus! {

/// The outcome of waiting for a lock.
#[derive(Debug)]
pub enum Locked<T> {
    /// The lock was taken.
    Acquired(T),
    /// The lock was taken, but an earlier holder had failed.
    Poisoned(T),
}

/// The outcome of trying a lock without waiting.
#[derive(Debug)]
pub enum TryLocked<T> {
    /// The lock was taken.
    Acquired(T),
    /// The lock was taken, but an earlier holder had failed.
    Poisoned(T),
    /// Another holder has the lock.
    WouldBlock,
}

/// Takes what is behind the lock, poisoned or not.
pub fn safe_lock<T>(outcome: Locked<T>) -> (r: Result<T, String>)
    ensures
        r == Ok::<T, String>(
            match outcome {
                Locked::Acquired(v) => v,
                Locked::Poisoned(v) => v,
            },
        ),
{
    match outcome {
        Locked::Acquired(v) => Ok(v),
        Locked::Poisoned(v) => Ok(v),
    }
}

/// Takes what is behind the lock; what is behind a poisoned lock is
/// first put right by `recovery`.
pub fn safe_lock_with_recovery<T, F: FnOnce(T) -> T>(outcome: Locked<T>, recovery: F) -> (r: Result<
    T,
    String,
>)
    requires
        forall|v: T| call_requires(recovery, (v,)),
    ensures
        r.is_ok(),
        match outcome {
            Locked::Acquired(v) => r->Ok_0 == v,
            Locked::Poisoned(v) => call_ensures(recovery, (v,), r->Ok_0),
        },
{
    match outcome {
        Locked::Acquired(v) => Ok(v),
        Locked::Poisoned(v) => Ok(recovery(v)),
    }
}

/// Takes what is behind the lock if the lock could be had, poisoned or
/// not; a lock that another holder has gives nothing.
pub fn safe_try_lock<T>(outcome: TryLocked<T>) -> (r: Result<Option<T>, String>)
    ensures
        r == Ok::<Option<T>, String>(
            match outcome {
                TryLocked::Acquired(v) => Some(v),
                TryLocked::Poisoned(v) => Some(v),
                TryLocked::WouldBlock => None,
            },
        ),
{
    match outcome {
        TryLocked::Acquired(v) => Ok(Some(v)),
        TryLocked::Poisoned(v) => Ok(Some(v)),
        TryLocked::WouldBlock => Ok(None),
    }
}

/// A count of the poisoned locks that were met, with the time of the
/// last.
#[derive(Debug, Default)]
pub struct MutexMonitor {
    poisoning_count: usize,
    last_poisoning: Option<u64>,
}

impl MutexMonitor {
    /// The number of poisoned locks met so far.
    pub closed spec fn count(self) -> nat {
        self.poisoning_count as nat
    }

    /// The time at which the last poisoned lock was met.
    pub closed spec fn last(self) -> Option<u64> {
        self.last_poisoning
    }

    /// A monitor that has met no poisoned lock.
    pub fn new() -> (r: Self)
        ensures
            r.count() == 0,
            r.last().is_none(),
    {
        MutexMonitor { poisoning_count: 0, last_poisoning: None }
    }

    /// Notes that a poisoned lock was met at time `now`.  The count
    /// starts again from zero when it no longer fits its type.
    pub fn record_poisoning(&mut self, now: u64)
        ensures
            final(self).count() == (if old(self).count() == usize::MAX {
                0
            } else {
                old(self).count() + 1
            }),
            final(self).last() == Some(now),
    {
        self.poisoning_count = if self.poisoning_count == usize::MAX {
            0
        } else {
            self.poisoning_count + 1
        };
        self.last_poisoning = Some(now);
    }

    /// The number of poisoned locks met so far.
    pub fn get_poisoning_count(&self) -> (r: usize)
        ensures
            r == self.count(),
    {
        self.poisoning_count
    }

    /// The time at which the last poisoned lock was met.
    pub fn get_last_poisoning(&self) -> (r: Option<u64>)
        ensures
            r == self.last(),
    {
        self.last_poisoning
    }
}

/// Takes what is behind the lock, poisoned or not, and notes a poisoned
/// lock in the monitor.
pub fn safe_lock_monitored<T>(
    outcome: Locked<T>,
    name: &str,
    monitor: &mut MutexMonitor,
    now: u64,
) -> (r: Result<T, String>)
    ensures
        r == Ok::<T, String>(
            match outcome {
                Locked::Acquired(v) => v,
                Locked::Poisoned(v) => v,
            },
        ),
        outcome is Acquired ==> *final(monitor) == *old(monitor),
        outcome is Poisoned ==> final(monitor).last() == Some(now) && final(monitor).count() == (
        if old(monitor).count() == usize::MAX {
            0
        } else {
            old(monitor).count() + 1
        }),
{
    match outcome {
        Locked::Acquired(v) => Ok(v),
        Locked::Poisoned(v) => {
            monitor.record_poisoning(now);
            Ok(v)
        },
    }
}

} // verus!
