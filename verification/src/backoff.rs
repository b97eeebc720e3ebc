//! Exponential backoff, and the error handling of the ingest worker.

use vstd::prelude::*;

verus! {

/// First delay after a receive error, in milliseconds.
pub const BASE_DELAY: u64 = 100;

/// Longest delay after a receive error, in milliseconds.
pub const MAX_DELAY: u64 = 30_000;

/// Number of receive errors in a row at which the count starts anew.
pub const MAX_CONSECUTIVE_ERRORS: u32 = 10;

/// Two to the power of `n`.
pub open spec fn pow2(n: nat) -> nat
    decreases n,
{
    if n == 0 {
        1
    } else {
        2 * pow2((n - 1) as nat)
    }
}

/// Powers of two grow with their exponent and are never zero.
pub proof fn lemma_pow2_monotonic(a: nat, b: nat)
    requires
        a <= b,
    ensures
        1 <= pow2(a) <= pow2(b),
    decreases b,
{
    if a == 0 {
        if b > 0 {
            lemma_pow2_monotonic(0, (b - 1) as nat);
        }
    } else {
        lemma_pow2_monotonic((a - 1) as nat, (b - 1) as nat);
    }
}

/// `base` doubled `steps` times, but no more than `cap`.
pub open spec fn doubled(base: nat, steps: nat, cap: nat) -> nat {
    if base * pow2(steps) > cap {
        cap
    } else {
        base * pow2(steps)
    }
}

/// Doubles `base` `steps` times and confines the result to `cap`.
pub fn double_capped(base: u64, steps: u32, cap: u64) -> (r: u64)
    requires
        0 < base <= cap,
        cap <= 0x7fff_ffff_ffff_ffff,
    ensures
        r == doubled(base as nat, steps as nat, cap as nat),
{
    let mut d: u64 = base;
    let mut k: u32 = steps;
    while k > 0 && d < cap
        invariant
            0 < d,
            d <= cap || k == 0 || d >= cap,
            d < cap ==> d <= 0x7fff_ffff_ffff_ffff,
            cap <= 0x7fff_ffff_ffff_ffff,
            doubled(d as nat, k as nat, cap as nat) == doubled(
                base as nat,
                steps as nat,
                cap as nat,
            ),
        decreases k,
    {
        proof {
            assert((d * 2) * pow2((k - 1) as nat) == d * pow2(k as nat)) by (nonlinear_arith)
                requires
                    pow2(k as nat) == 2 * pow2((k - 1) as nat),
            ;
        }
        d = d * 2;
        k = k - 1;
    }
    proof {
        if k > 0 {
            lemma_pow2_monotonic(0, k as nat);
            assert(d * pow2(k as nat) >= d) by (nonlinear_arith)
                requires
                    pow2(k as nat) >= 1,
                    d > 0,
            ;
        } else {
            assert(d * pow2(0) == d) by (nonlinear_arith)
                requires
                    pow2(0) == 1,
            ;
        }
    }
    if d > cap {
        cap
    } else {
        d
    }
}

/// The delay after the given number of receive errors in a row: the base
/// delay for the first, twice the delay before for each further one, and
/// never more than the longest delay.
pub open spec fn backoff_delay(errors: nat) -> nat {
    doubled(
        100,
        if errors == 0 {
            0
        } else {
            (errors - 1) as nat
        },
        30_000,
    )
}

/// The delay, in milliseconds, after the given number of receive errors in
/// a row.
pub fn backoff_delay_ms(consecutive_errors: u32) -> (r: u64)
    ensures
        r == backoff_delay(consecutive_errors as nat),
{
    let steps: u32 = if consecutive_errors == 0 {
        0
    } else {
        consecutive_errors - 1
    };
    double_capped(BASE_DELAY, steps, MAX_DELAY)
}

/// From the first to the ninth error in a row the delay is a hundred
/// milliseconds doubled with each error, from 100 up to 25600; from the
/// tenth on it is the longest delay, thirty seconds.
pub proof fn lemma_backoff_doubles_then_saturates(errors: nat)
    ensures
        errors == 1 ==> backoff_delay(errors) == 100,
        1 <= errors < 9 ==> backoff_delay(errors + 1) == 2 * backoff_delay(errors),
        1 <= errors <= 9 ==> backoff_delay(errors) == 100 * pow2((errors - 1) as nat),
        errors == 9 ==> backoff_delay(errors) == 25_600,
        errors >= 10 ==> backoff_delay(errors) == 30_000,
{
    reveal_with_fuel(pow2, 10);
    if errors >= 10 {
        lemma_pow2_monotonic(9, (errors - 1) as nat);
        assert(pow2(9) == 512);
        assert(100 * pow2((errors - 1) as nat) >= 51_200) by (nonlinear_arith)
            requires
                pow2((errors - 1) as nat) >= 512,
        ;
    } else if errors >= 1 {
        assert(pow2(0) == 1);
        assert(pow2(1) == 2);
        assert(pow2(2) == 4);
        assert(pow2(3) == 8);
        assert(pow2(4) == 16);
        assert(pow2(5) == 32);
        assert(pow2(6) == 64);
        assert(pow2(7) == 128);
        assert(pow2(8) == 256);
    }
}

/// The kind of an error that the receiving socket reports.
#[derive(Clone, Copy, Debug, PartialEq, Eq, Structural)]
pub enum SocketErrorKind {
    WouldBlock,
    TimedOut,
    Interrupted,
    ConnectionReset,
    ConnectionAborted,
    Other,
}

/// How the worker goes on after a receive error.
#[derive(Clone, Copy, Debug, PartialEq, Eq, Structural)]
pub enum Recovery {
    /// The receive ran out of time: nothing is wrong.
    RetryAfterTimeout,
    /// The receive was interrupted.
    RetryAfterInterrupt,
    /// The connection was lost.
    RetryAfterConnectionLoss,
    /// An error of a kind that is not told apart.
    RetryAfterUnknown,
}

/// How the worker goes on after an error of the given kind: it retries
/// after every one of them.
pub open spec fn classify_error_spec(kind: SocketErrorKind) -> Recovery {
    match kind {
        SocketErrorKind::WouldBlock => Recovery::RetryAfterTimeout,
        SocketErrorKind::TimedOut => Recovery::RetryAfterTimeout,
        SocketErrorKind::Interrupted => Recovery::RetryAfterInterrupt,
        SocketErrorKind::ConnectionReset => Recovery::RetryAfterConnectionLoss,
        SocketErrorKind::ConnectionAborted => Recovery::RetryAfterConnectionLoss,
        SocketErrorKind::Other => Recovery::RetryAfterUnknown,
    }
}

/// How the worker goes on after an error of the given kind.
#[verifier::when_used_as_spec(classify_error_spec)]
pub fn classify_error(kind: SocketErrorKind) -> (r: Recovery)
    ensures
        r == classify_error_spec(kind),
{
    match kind {
        SocketErrorKind::WouldBlock => Recovery::RetryAfterTimeout,
        SocketErrorKind::TimedOut => Recovery::RetryAfterTimeout,
        SocketErrorKind::Interrupted => Recovery::RetryAfterInterrupt,
        SocketErrorKind::ConnectionReset => Recovery::RetryAfterConnectionLoss,
        SocketErrorKind::ConnectionAborted => Recovery::RetryAfterConnectionLoss,
        SocketErrorKind::Other => Recovery::RetryAfterUnknown,
    }
}

/// What the worker does after a receive error.
#[derive(Clone, Copy, Debug, PartialEq, Eq, Structural)]
pub struct Backoff {
    /// How long to sleep before the next receive, in milliseconds.
    pub delay: u64,
    /// Whether the errors in a row reached their ceiling and the count
    /// started anew.
    pub critical: bool,
    /// How the worker goes on.
    pub recovery: Recovery,
}

/// The part of the ingest worker that survives socket errors: it counts
/// the receive errors in a row.
#[derive(Debug)]
pub struct Worker {
    consecutive_errors: u32,
}

impl Worker {
    #[verifier::type_invariant]
    spec fn below_ceiling(self) -> bool {
        self.consecutive_errors < 10
    }

    /// The number of receive errors in a row.
    pub closed spec fn errors(self) -> nat {
        self.consecutive_errors as nat
    }

    /// A worker that has seen no error.
    pub fn new() -> (r: Worker)
        ensures
            r.errors() == 0,
    {
        Worker { consecutive_errors: 0 }
    }

    /// The number of receive errors in a row; always below the ceiling.
    pub fn consecutive_errors(&self) -> (r: u32)
        ensures
            r == self.errors(),
            r < 10,
    {
        proof {
            use_type_invariant(self);
        }
        self.consecutive_errors
    }

    /// A datagram was received, empty or not: the errors in a row end.
    pub fn on_datagram(&mut self)
        ensures
            final(self).errors() == 0,
    {
        self.consecutive_errors = 0;
    }

    /// A receive failed.  The error is counted; the worker sleeps for the
    /// backoff delay of the count and receives again.  At the tenth error
    /// in a row the count starts anew and the worker sleeps the longest
    /// delay once.
    pub fn on_error(&mut self, kind: SocketErrorKind) -> (r: Backoff)
        ensures
            old(self).errors() + 1 >= 10 ==> final(self).errors() == 0 && r.critical && r.delay
                == 30_000,
            old(self).errors() + 1 < 10 ==> final(self).errors() == old(self).errors() + 1
                && !r.critical && r.delay == backoff_delay(final(self).errors()),
            r.recovery == classify_error(kind),
            r.delay <= 30_000,
    {
        proof {
            use_type_invariant(&*self);
        }
        let count: u32 = self.consecutive_errors + 1;
        let recovery: Recovery = classify_error(kind);
        if count >= MAX_CONSECUTIVE_ERRORS {
            self.consecutive_errors = 0;
            Backoff { delay: MAX_DELAY, critical: true, recovery }
        } else {
            self.consecutive_errors = count;
            Backoff { delay: backoff_delay_ms(count), critical: false, recovery }
        }
    }
}

} // verus!
