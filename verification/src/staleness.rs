//! Cached values that know when they have to be asked for again.

use vstd::prelude::*;

verus! {

/// The request that brings a cached attribute up to date.
#[derive(Clone, Copy, Debug, PartialEq, Eq, Structural)]
pub enum RefreshRequest {
    GetGroup,
    GetLocation,
    GetLabel,
    GetVersion,
    GetHostFirmware,
    GetWifiFirmware,
    GetPower,
    GetColorZones { start_index: u8, end_index: u8 },
    LightGet,
}

/// Milliseconds that have passed at `now` since `then`; zero where `then`
/// lies ahead of `now`.
pub open spec fn elapsed(now: u64, then: u64) -> int {
    if now >= then {
        now - then
    } else {
        0
    }
}

/// A value with the time of its last refresh and the longest age at which
/// it still counts as fresh.  Times are milliseconds of one monotonic
/// clock.
#[derive(Debug)]
pub struct RefreshableData<T> {
    pub data: Option<T>,
    pub max_age: u64,
    pub last_updated: u64,
    pub refresh_msg: RefreshRequest,
}

impl<T> RefreshableData<T> {
    /// Has the cell no value, or one older than its longest age?
    pub open spec fn stale(self, now: u64) -> bool {
        self.data.is_none() || elapsed(now, self.last_updated) > self.max_age
    }

    /// The cell after it was given `data` at time `now`.
    pub open spec fn updated(self, data: T, now: u64) -> Self {
        RefreshableData {
            data: Some(data),
            max_age: self.max_age,
            last_updated: now,
            refresh_msg: self.refresh_msg,
        }
    }

    /// A cell without a value, made at time `now`.
    pub fn empty(max_age: u64, refresh_msg: RefreshRequest, now: u64) -> (r: RefreshableData<T>)
        ensures
            r == (RefreshableData::<T> { data: None, max_age, last_updated: now, refresh_msg }),
    {
        RefreshableData { data: None, max_age, last_updated: now, refresh_msg }
    }

    /// Stores a value and takes `now` as the time of its refresh.
    pub fn update(&mut self, data: T, now: u64)
        ensures
            *final(self) == old(self).updated(data, now),
    {
        self.data = Some(data);
        self.last_updated = now;
    }

    /// Does the cell have to be asked for again at time `now`?
    pub fn needs_refresh(&self, now: u64) -> (r: bool)
        ensures
            r == self.stale(now),
    {
        if self.data.is_none() {
            true
        } else if now >= self.last_updated {
            now - self.last_updated > self.max_age
        } else {
            false
        }
    }

    /// The value, if there is one.
    pub fn as_ref(&self) -> (r: Option<&T>)
        ensures
            r.is_some() == self.data.is_some(),
            r.is_some() ==> *r.unwrap() == self.data.unwrap(),
    {
        self.data.as_ref()
    }
}

/// A cell without a value is stale at every time.  A cell that was updated
/// at time `t` is fresh at `t` and stays fresh exactly as long as no more
/// than its longest age has passed: once more has passed, it is stale
/// again.
pub proof fn lemma_staleness_cycle<T>(cell: RefreshableData<T>, value: T, t: u64, now: u64)
    ensures
        cell.data.is_none() ==> cell.stale(now),
        !cell.updated(value, t).stale(t),
        cell.updated(value, t).stale(now) <==> now > t && now - t > cell.max_age,
{
}

} // verus!
