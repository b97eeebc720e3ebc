//! Fixed-window rate limiting of clients: one family of counters for
//! failed authentication, one for changes of configuration.

use vstd::prelude::*;
use crate::clock::Clock;
use crate::staleness::elapsed;

verus! {

/// Failed authentications that a client may make within one window.
pub const MAX_AUTH_ATTEMPTS: u32 = 5;

/// Length of the authentication window, in seconds.
pub const AUTH_WINDOW_SECONDS: u64 = 60;

/// Changes of configuration that a client may make within one window.
pub const MAX_CONFIG_CHANGES: u32 = 5;

/// Length of the configuration window, in seconds.
pub const CONFIG_WINDOW_SECONDS: u64 = 300;

/// The counter of one client: when its window began, when it was last
/// counted, and how often it was counted within the window.
#[derive(Clone, Copy, Debug, PartialEq, Eq, Structural)]
pub struct Window {
    pub first_attempt: u64,
    pub last_attempt: u64,
    pub count: u32,
}

/// The counter of a client after a request at time `now`, and whether the
/// request is allowed.  A client without counter, or whose window has
/// passed, starts a new window with this request, which is allowed.  Within
/// the window a request is denied once the count has reached the ceiling,
/// and counted otherwise.
pub open spec fn window_step(entry: Option<Window>, now: u64, window: u64, ceiling: u32) -> (
    Window,
    bool,
) {
    match entry {
        None => (Window { first_attempt: now, last_attempt: now, count: 1 }, true),
        Some(w) => if elapsed(now, w.first_attempt) > window {
            (Window { first_attempt: now, last_attempt: now, count: 1 }, true)
        } else if w.count >= ceiling {
            (w, false)
        } else {
            (
                Window {
                    first_attempt: w.first_attempt,
                    last_attempt: now,
                    count: (w.count + 1) as u32,
                },
                true,
            )
        },
    }
}

/// The counter of a client after requests at the given times.
pub open spec fn after_requests(entry: Option<Window>, times: Seq<u64>, window: u64, ceiling: u32)
    -> Option<Window>
    decreases times.len(),
{
    if times.len() == 0 {
        entry
    } else {
        Some(
            window_step(
                after_requests(entry, times.drop_last(), window, ceiling),
                times.last(),
                window,
                ceiling,
            ).0,
        )
    }
}

/// Whether the last of the requests at the given times is allowed.
pub open spec fn last_allowed(entry: Option<Window>, times: Seq<u64>, window: u64, ceiling: u32)
    -> bool {
    window_step(
        after_requests(entry, times.drop_last(), window, ceiling),
        times.last(),
        window,
        ceiling,
    ).1
}

/// Of the requests that a new client makes within one window, those up to
/// the ceiling are allowed and every further one is denied: the request
/// number `n` is allowed if and only if `n` is at most the ceiling.
pub proof fn lemma_ceiling_within_window(times: Seq<u64>, window: u64, ceiling: u32)
    requires
        times.len() >= 1,
        ceiling >= 1,
        forall|i: int|
            0 <= i < times.len() ==> times[0] <= #[trigger] times[i] && times[i] - times[0]
                <= window,
    ensures
        last_allowed(None, times, window, ceiling) == (times.len() <= ceiling),
        after_requests(None, times, window, ceiling).is_some(),
        after_requests(None, times, window, ceiling).unwrap().first_attempt == times[0],
        after_requests(None, times, window, ceiling).unwrap().count == (if times.len() <= ceiling {
            times.len() as u32
        } else {
            ceiling
        }),
    decreases times.len(),
{
    let head = times.drop_last();
    if head.len() == 0 {
        assert(after_requests(None, head, window, ceiling).is_none());
    } else {
        assert forall|i: int| 0 <= i < head.len() implies head[0] <= #[trigger] head[i] && head[i]
            - head[0] <= window by {
            assert(head[i] == times[i]);
            assert(head[0] == times[0]);
        }
        lemma_ceiling_within_window(head, window, ceiling);
        assert(head[0] == times[0]);
        assert(times.last() == times[times.len() - 1]);
    }
}

/// Once the window of a counter has passed, the next request is allowed
/// and starts the count anew.
pub proof fn lemma_window_resets(w: Window, now: u64, window: u64, ceiling: u32)
    requires
        now > w.first_attempt,
        now - w.first_attempt > window,
    ensures
        window_step(Some(w), now, window, ceiling).1,
        window_step(Some(w), now, window, ceiling).0.count == 1,
        window_step(Some(w), now, window, ceiling).0.first_attempt == now,
{
}

/// The counter of one client, under the client's key.
#[derive(Debug)]
pub struct Entry {
    pub key: String,
    pub window: Window,
}

/// The place of the counter with the given key, or the number of counters
/// where the key has none.
pub open spec fn slot(entries: Seq<Entry>, key: Seq<char>) -> int
    decreases entries.len(),
{
    if entries.len() == 0 || entries[0].key@ == key {
        0
    } else {
        1 + slot(entries.drop_first(), key)
    }
}

/// The counter that a key has among the entries.
pub open spec fn window_at(entries: Seq<Entry>, key: Seq<char>) -> Option<Window> {
    if slot(entries, key) < entries.len() {
        Some(entries[slot(entries, key)].window)
    } else {
        None
    }
}

/// No two entries have the same key.
pub open spec fn distinct_keys(entries: Seq<Entry>) -> bool {
    forall|i: int, j: int|
        0 <= i < entries.len() && 0 <= j < entries.len() && i != j ==> (#[trigger] entries[i]).key@
            != (#[trigger] entries[j]).key@
}

proof fn lemma_slot(entries: Seq<Entry>, key: Seq<char>)
    ensures
        0 <= slot(entries, key) <= entries.len(),
        slot(entries, key) < entries.len() ==> entries[slot(entries, key)].key@ == key,
        forall|k: int| 0 <= k < slot(entries, key) ==> (#[trigger] entries[k]).key@ != key,
    decreases entries.len(),
{
    if entries.len() == 0 || entries[0].key@ == key {
    } else {
        let rest = entries.drop_first();
        lemma_slot(rest, key);
        assert forall|k: int| 0 <= k < slot(entries, key) implies (#[trigger] entries[k]).key@
            != key by {
            if k > 0 {
                assert(entries[k] == rest[k - 1]);
            }
        }
    }
}

proof fn lemma_slot_unique(entries: Seq<Entry>, key: Seq<char>, i: int)
    requires
        0 <= i <= entries.len(),
        forall|k: int| 0 <= k < i ==> (#[trigger] entries[k]).key@ != key,
        i < entries.len() ==> entries[i].key@ == key,
    ensures
        slot(entries, key) == i,
{
    lemma_slot(entries, key);
    let j = slot(entries, key);
    if j < i {
        assert(entries[j].key@ == key);
    } else if j > i {
        assert(entries[i].key@ == key);
    }
}

fn find_slot(entries: &Vec<Entry>, key: &String) -> (i: usize)
    ensures
        i == slot(entries@, key@),
        i <= entries@.len(),
{
    let mut i: usize = 0;
    while i < entries.len()
        invariant
            i <= entries.len(),
            forall|k: int| 0 <= k < i ==> (#[trigger] entries@[k]).key@ != key@,
        decreases entries.len() - i,
    {
        if entries[i].key == *key {
            proof {
                lemma_slot_unique(entries@, key@, i as int);
            }
            return i;
        }
        i += 1;
    }
    proof {
        lemma_slot_unique(entries@, key@, i as int);
    }
    i
}

/// Counts a request of the client `key` at time `now` and tells whether
/// it is allowed.
fn count_request(entries: &mut Vec<Entry>, key: String, now: u64, window: u64, ceiling: u32) -> (r:
    bool)
    requires
        distinct_keys(old(entries)@),
    ensures
        distinct_keys(final(entries)@),
        r == window_step(window_at(old(entries)@, key@), now, window, ceiling).1,
        forall|k: Seq<char>|
            window_at(final(entries)@, k) == (if k == key@ {
                Some(window_step(window_at(old(entries)@, key@), now, window, ceiling).0)
            } else {
                window_at(old(entries)@, k)
            }),
{
    let i: usize = find_slot(entries, &key);
    let ghost before = entries@;
    proof {
        lemma_slot(before, key@);
    }
    let fresh = Window { first_attempt: now, last_attempt: now, count: 1 };
    if i < entries.len() {
        let w: Window = entries[i].window;
        let passed: u64 = if now >= w.first_attempt {
            now - w.first_attempt
        } else {
            0
        };
        let allowed: bool = passed > window || w.count < ceiling;
        if passed > window {
            entries[i].window = fresh;
        } else if w.count < ceiling {
            entries[i].window = Window {
                first_attempt: w.first_attempt,
                last_attempt: now,
                count: w.count + 1,
            };
        }
        proof {
            let after = entries@;
            assert(after.len() == before.len());
            assert forall|k: int| 0 <= k < after.len() implies (#[trigger] after[k]).key@
                == before[k].key@ by {}
            assert forall|k: Seq<char>|
                window_at(after, k) == (if k == key@ {
                    Some(window_step(window_at(before, key@), now, window, ceiling).0)
                } else {
                    window_at(before, k)
                }) by {
                lemma_slot(before, k);
                lemma_slot_unique(after, k, slot(before, k));
            }
        }
        allowed
    } else {
        entries.push(Entry { key, window: fresh });
        proof {
            let after = entries@;
            assert(after.drop_last() =~= before);
            assert forall|k: Seq<char>|
                window_at(after, k) == (if k == key@ {
                    Some(window_step(window_at(before, key@), now, window, ceiling).0)
                } else {
                    window_at(before, k)
                }) by {
                lemma_slot(before, k);
                if k == key@ {
                    lemma_slot_unique(after, k, before.len() as int);
                } else if slot(before, k) < before.len() {
                    lemma_slot_unique(after, k, slot(before, k));
                } else {
                    lemma_slot_unique(after, k, after.len() as int);
                }
            }
        }
        true
    }
}

/// Is the counter idle for longer than `max_idle` at time `now`?  The
/// idle time is counted from the last request, or from the start of the
/// window where `since_start` holds.
pub open spec fn is_idle(w: Window, now: u64, max_idle: u64, since_start: bool) -> bool {
    elapsed(
        now,
        if since_start {
            w.first_attempt
        } else {
            w.last_attempt
        },
    ) > max_idle
}

/// Removes the counters that are idle for longer than `max_idle`.
fn sweep(entries: &mut Vec<Entry>, now: u64, max_idle: u64, since_start: bool)
    requires
        distinct_keys(old(entries)@),
    ensures
        distinct_keys(final(entries)@),
        forall|k: Seq<char>|
            window_at(final(entries)@, k) == (match window_at(old(entries)@, k) {
                Some(w) => if is_idle(w, now, max_idle, since_start) {
                    None
                } else {
                    Some(w)
                },
                None => None,
            }),
{
    let ghost before = entries@;
    let mut kept: Vec<Entry> = Vec::new();
    // For each entry kept, the place it came from; for each entry looked
    // at, the place it went to, or -1 where it was dropped.
    let ghost mut origin: Seq<int> = Seq::empty();
    let ghost mut dest: Seq<int> = Seq::empty();
    let mut i: usize = 0;
    while i < entries.len()
        invariant
            i <= entries.len(),
            entries@ == before,
            distinct_keys(before),
            origin.len() == kept@.len(),
            dest.len() == i,
            forall|a: int|
                0 <= a < kept@.len() ==> 0 <= #[trigger] origin[a] < i && dest[origin[a]] == a
                    && kept@[a].key@ == before[origin[a]].key@ && kept@[a].window
                    == before[origin[a]].window,
            forall|b: int|
                0 <= b < i ==> (if is_idle(before[b].window, now, max_idle, since_start) {
                    #[trigger] dest[b] == -1
                } else {
                    0 <= dest[b] < kept@.len() && origin[dest[b]] == b
                }),
        decreases entries.len() - i,
    {
        let w: Window = entries[i].window;
        let stamp: u64 = if since_start {
            w.first_attempt
        } else {
            w.last_attempt
        };
        let passed: u64 = if now >= stamp {
            now - stamp
        } else {
            0
        };
        if passed <= max_idle {
            kept.push(Entry { key: entries[i].key.clone(), window: w });
            proof {
                dest = dest.push(origin.len() as int);
                origin = origin.push(i as int);
            }
        } else {
            proof {
                dest = dest.push(-1);
            }
        }
        i += 1;
    }
    proof {
        assert forall|a: int, c: int|
            0 <= a < kept@.len() && 0 <= c < kept@.len() && a != c implies (
        #[trigger] kept@[a]).key@ != (#[trigger] kept@[c]).key@ by {
            assert(dest[origin[a]] == a);
            assert(dest[origin[c]] == c);
            assert(origin[a] != origin[c]);
            assert(before[origin[a]].key@ != before[origin[c]].key@);
        }
        assert forall|k: Seq<char>|
            window_at(kept@, k) == (match window_at(before, k) {
                Some(w) => if is_idle(w, now, max_idle, since_start) {
                    None
                } else {
                    Some(w)
                },
                None => None,
            }) by {
            lemma_slot(before, k);
            lemma_slot(kept@, k);
            let sb = slot(before, k);
            let sk = slot(kept@, k);
            if sk < kept@.len() {
                let b = origin[sk];
                assert(before[b].key@ == k);
                assert(dest[b] == sk);
                if b != sb {
                    assert(before[b].key@ != before[sb].key@);
                }
            } else if sb < before.len() && !is_idle(
                before[sb].window,
                now,
                max_idle,
                since_start,
            ) {
                let a = dest[sb];
                assert(origin[a] == sb);
                assert(kept@[a].key@ == k);
            }
        }
    }
    *entries = kept;
}


/// The counters of both families, with the clock by which their windows
/// are measured.
pub struct RateLimiter {
    attempts: Vec<Entry>,
    config_changes: Vec<Entry>,
    clock: Clock,
}

/// Length of the authentication window, in milliseconds.
pub open spec fn auth_window_millis() -> u64 {
    60_000
}

/// Length of the configuration window, in milliseconds.
pub open spec fn config_window_millis() -> u64 {
    300_000
}

impl RateLimiter {
    /// The invariant of the limiter: each client has at most one counter
    /// in each family.
    pub closed spec fn wf(self) -> bool {
        distinct_keys(self.attempts@) && distinct_keys(self.config_changes@)
    }

    /// The authentication counter of a client.
    pub closed spec fn auth_window(self, key: Seq<char>) -> Option<Window> {
        window_at(self.attempts@, key)
    }

    /// The configuration counter of a client.
    pub closed spec fn config_window(self, key: Seq<char>) -> Option<Window> {
        window_at(self.config_changes@, key)
    }

    /// Is `n` the limiter `self` after a failed authentication of the
    /// client `key` was counted at time `now`, and is `allowed` whether
    /// the client may try again?
    pub open spec fn auth_counted(self, n: RateLimiter, key: Seq<char>, now: u64, allowed: bool)
        -> bool {
        let step = window_step(self.auth_window(key), now, auth_window_millis(), 5);
        &&& allowed == step.1
        &&& forall|k: Seq<char>|
            #[trigger] n.auth_window(k) == (if k == key {
                Some(step.0)
            } else {
                self.auth_window(k)
            })
        &&& forall|k: Seq<char>| #[trigger] n.config_window(k) == self.config_window(k)
    }

    /// Is `n` the limiter `self` after a change of configuration by the
    /// client `key` was counted at time `now`, and is `allowed` whether
    /// the change may be made?
    pub open spec fn config_counted(self, n: RateLimiter, key: Seq<char>, now: u64, allowed: bool)
        -> bool {
        let step = window_step(self.config_window(key), now, config_window_millis(), 5);
        &&& allowed == step.1
        &&& forall|k: Seq<char>|
            #[trigger] n.config_window(k) == (if k == key {
                Some(step.0)
            } else {
                self.config_window(k)
            })
        &&& forall|k: Seq<char>| #[trigger] n.auth_window(k) == self.auth_window(k)
    }

    /// Is `n` the limiter `self` after the sweep at time `now`?  An
    /// authentication counter goes once its window began more than two
    /// windows ago, a configuration counter once it was last counted more
    /// than ten minutes ago.
    pub open spec fn swept(self, n: RateLimiter, now: u64) -> bool {
        &&& forall|k: Seq<char>|
            #[trigger] n.auth_window(k) == (match self.auth_window(k) {
                Some(w) => if is_idle(w, now, 120_000, true) {
                    None
                } else {
                    Some(w)
                },
                None => None,
            })
        &&& forall|k: Seq<char>|
            #[trigger] n.config_window(k) == (match self.config_window(k) {
                Some(w) => if is_idle(w, now, 600_000, false) {
                    None
                } else {
                    Some(w)
                },
                None => None,
            })
    }

    /// A limiter without a counter.
    pub fn new() -> (r: RateLimiter)
        ensures
            r.wf(),
            forall|k: Seq<char>| (#[trigger] r.auth_window(k)).is_none(),
            forall|k: Seq<char>| (#[trigger] r.config_window(k)).is_none(),
    {
        RateLimiter { attempts: Vec::new(), config_changes: Vec::new(), clock: Clock::new() }
    }

    /// Counts a failed authentication of the client at time `now` and
    /// tells whether the client may try again.
    pub fn check_and_update_at(&mut self, client_ip: String, now: u64) -> (r: bool)
        requires
            old(self).wf(),
        ensures
            final(self).wf(),
            old(self).auth_counted(*final(self), client_ip@, now, r),
    {
        count_request(&mut self.attempts, client_ip, now, 60_000, MAX_AUTH_ATTEMPTS)
    }

    /// Counts a failed authentication of the client at the present time.
    pub fn check_and_update(&mut self, client_ip: String) -> (r: bool)
        requires
            old(self).wf(),
        ensures
            final(self).wf(),
            exists|now: u64| old(self).auth_counted(*final(self), client_ip@, now, r),
    {
        let now: u64 = self.clock.now();
        self.check_and_update_at(client_ip, now)
    }

    /// Counts a change of configuration by the client at time `now` and
    /// tells whether it may be made.
    pub fn check_config_change_limit_at(&mut self, client_ip: String, now: u64) -> (r: bool)
        requires
            old(self).wf(),
        ensures
            final(self).wf(),
            old(self).config_counted(*final(self), client_ip@, now, r),
    {
        count_request(&mut self.config_changes, client_ip, now, 300_000, MAX_CONFIG_CHANGES)
    }

    /// Counts a change of configuration by the client at the present time.
    pub fn check_config_change_limit(&mut self, client_ip: String) -> (r: bool)
        requires
            old(self).wf(),
        ensures
            final(self).wf(),
            exists|now: u64| old(self).config_counted(*final(self), client_ip@, now, r),
    {
        let now: u64 = self.clock.now();
        self.check_config_change_limit_at(client_ip, now)
    }

    /// Removes the counters that have been idle for long at time `now`.
    pub fn cleanup_old_entries_at(&mut self, now: u64)
        requires
            old(self).wf(),
        ensures
            final(self).wf(),
            old(self).swept(*final(self), now),
    {
        sweep(&mut self.attempts, now, 120_000, true);
        sweep(&mut self.config_changes, now, 600_000, false);
    }

    /// Removes the counters that have been idle for long at the present
    /// time.
    pub fn cleanup_old_entries(&mut self)
        requires
            old(self).wf(),
        ensures
            final(self).wf(),
            exists|now: u64| old(self).swept(*final(self), now),
    {
        let now: u64 = self.clock.now();
        self.cleanup_old_entries_at(now)
    }
}

/// Counts a failed authentication of the client, where the counters stand
/// behind a lock.  `lock` is the limiter, or `None` where the lock could
/// not be had: then the answer is no.
pub fn check_and_update_locked(lock: Option<&mut RateLimiter>, client_ip: String) -> (r: bool)
    requires
        lock.is_some() ==> (*lock.unwrap()).wf(),
    ensures
        lock.is_none() ==> !r,
        lock.is_some() ==> (*final(lock.unwrap())).wf() && exists|now: u64|
            #[trigger] (*lock.unwrap()).auth_counted(*final(lock.unwrap()), client_ip@, now, r),
{
    match lock {
        None => false,
        Some(limiter) => limiter.check_and_update(client_ip),
    }
}

/// Counts a change of configuration by the client, where the counters stand
/// behind a lock, and tells whether the change may be made.  `lock` is the
/// limiter, or `None` where the lock could not be had: then the answer is
/// no.
pub fn check_config_change_locked(lock: Option<&mut RateLimiter>, client_ip: String) -> (r: bool)
    requires
        lock.is_some() ==> (*lock.unwrap()).wf(),
    ensures
        lock.is_none() ==> !r,
        lock.is_some() ==> (*final(lock.unwrap())).wf() && exists|now: u64|
            #[trigger] (*lock.unwrap()).config_counted(*final(lock.unwrap()), client_ip@, now, r),
{
    match lock {
        None => false,
        Some(limiter) => limiter.check_config_change_limit(client_ip),
    }
}

} // verus!
