//! The rate limiter.
//!
//! Outbound writes pass through a token bucket: a window of `period`
//! milliseconds holds at most `cap` sends. The bucket is pure state (the
//! caller hands in the clock), so the whole discipline is verified:
//! [`lemma_rate_limit_honored`] states the law that over any one window at
//! most the bucket's capacity of sends succeed.

use vstd::prelude::*;
use crate::tags::lookup_pairs;
use crate::trovo::Tags;
use crate::util::str_eq;

verus! {

/// How many milliseconds one rate window lasts.
pub const RATE_PERIOD_MS: u64 = 30000;

/// How many sends a normal user gets per window.
pub const NORMAL_CAP: u64 = 20;

/// How many sends a moderator gets per window.
pub const MODERATOR_CAP: u64 = 100;

/// How many milliseconds one join window lasts.
pub const JOIN_PERIOD_MS: u64 = 15000;

/// How many joins fit in one join window.
pub const JOIN_CAP: u64 = 50;

/// The privilege class that selects the bucket parameters.
#[derive(Clone, Copy, Debug, PartialEq, Eq, Structural)]
pub enum RateClass {
    /// A normal user.
    Normal,
    /// A moderator of the channel written to.
    Moderator,
}

impl RateClass {
    /// The sends this class gets per window.
    pub open spec fn spec_cap(self) -> u64 {
        match self {
            RateClass::Normal => NORMAL_CAP,
            RateClass::Moderator => MODERATOR_CAP,
        }
    }

    /// The sends this class gets per window.
    pub fn cap(self) -> (r: u64)
        ensures
            r == self.spec_cap(),
    {
        match self {
            RateClass::Normal => NORMAL_CAP,
            RateClass::Moderator => MODERATOR_CAP,
        }
    }
}

/// A token bucket: `(capacity, period, remaining, window_start)`.
///
/// The window starts at the first send after a refill; when it expires the
/// bucket refills to capacity.
#[derive(Clone, Copy, Debug, PartialEq, Eq, Structural)]
pub struct RateLimit {
    /// The most sends one window admits.
    pub cap: u64,
    /// The window length, in milliseconds.
    pub period: u64,
    /// The sends left in the current window.
    pub remaining: u64,
    /// When the current window started, in milliseconds.
    pub window_start: u64,
}

impl RateLimit {
    /// A bucket never holds more than its capacity, and admits at least one
    /// send per window.
    pub open spec fn wf(self) -> bool {
        self.remaining <= self.cap && self.cap >= 1 && self.period >= 1
    }

    /// A full bucket with the given parameters.
    pub fn new(cap: u64, period: u64) -> (r: Self)
        requires
            cap >= 1,
            period >= 1,
        ensures
            r.wf(),
            r == (RateLimit { cap, period, remaining: cap, window_start: 0u64 }),
    {
        RateLimit { cap, period, remaining: cap, window_start: 0 }
    }

    /// A full bucket for the given privilege class.
    pub fn from_class(class: RateClass) -> (r: Self)
        ensures
            r.wf(),
            r.cap == class.spec_cap(),
            r.period == RATE_PERIOD_MS,
            r.remaining == r.cap,
            r.window_start == 0,
    {
        RateLimit::new(class.cap(), RATE_PERIOD_MS)
    }

    /// A full bucket for joins, which have their own window.
    pub fn for_joins() -> (r: Self)
        ensures
            r.wf(),
            r.cap == JOIN_CAP,
            r.period == JOIN_PERIOD_MS,
            r.remaining == r.cap,
            r.window_start == 0,
    {
        RateLimit::new(JOIN_CAP, JOIN_PERIOD_MS)
    }

    /// What one acquisition at time `now` does to a bucket: refill when the
    /// window has expired, then consume one token when one is left.
    pub open spec fn spec_acquire(self, now: u64) -> (RateLimit, bool) {
        let refilled = now >= self.window_start + self.period;
        let avail = if refilled {
            self.cap
        } else {
            self.remaining
        };
        let start = if refilled {
            now
        } else {
            self.window_start
        };
        let granted = avail > 0;
        (
            RateLimit {
                cap: self.cap,
                period: self.period,
                remaining: if granted {
                    (avail - 1) as u64
                } else {
                    avail
                },
                window_start: start,
            },
            granted,
        )
    }

    /// Acquire one token at time `now`; `false` when the window is spent,
    /// and the caller must wait for it to slide.
    ///
    /// The clock must not run backwards past the window start.
    pub fn try_acquire(&mut self, now: u64) -> (r: bool)
        requires
            old(self).wf(),
            now >= old(self).window_start,
        ensures
            final(self).wf(),
            (*final(self), r) == old(self).spec_acquire(now),
    {
        if now - self.window_start >= self.period {
            self.remaining = self.cap;
            self.window_start = now;
        }
        if self.remaining > 0 {
            self.remaining = self.remaining - 1;
            true
        } else {
            false
        }
    }
}

/// The privilege class a `USERSTATE` message's tags indicate: a `mod` tag
/// of `1` makes the sender a moderator.
pub fn class_from_tags(tags: &Tags) -> (r: RateClass)
    ensures
        r == (if lookup_pairs(tags.s_pairs(), "mod"@) == Some("1"@) {
            RateClass::Moderator
        } else {
            RateClass::Normal
        }),
{
    match tags.get("mod") {
        Some(v) => {
            if str_eq(v, "1") {
                RateClass::Moderator
            } else {
                RateClass::Normal
            }
        },
        None => RateClass::Normal,
    }
}

/// A bucket run over a sequence of acquisition times: the final bucket and
/// how many acquisitions were granted.
pub open spec fn run_bucket(b: RateLimit, ts: Seq<u64>) -> (RateLimit, nat)
    decreases ts.len(),
{
    if ts.len() == 0 {
        (b, 0nat)
    } else {
        let step = b.spec_acquire(ts[0]);
        let rest = run_bucket(step.0, ts.skip(1));
        (rest.0, rest.1 + (if step.1 {
            1nat
        } else {
            0nat
        }))
    }
}

/// All times fall inside the bucket's current window.
pub open spec fn within_window(b: RateLimit, ts: Seq<u64>) -> bool {
    forall|i: int|
        0 <= i < ts.len() ==> b.window_start <= #[trigger] ts[i] && ts[i] < b.window_start
            + b.period
}

/// Law: rate-limit honoring. Over any window of the bucket's period, at
/// most `remaining` sends, and so at most `cap` sends, are granted,
/// however many are attempted and in whatever order the clock hands them
/// in. Acquisitions are processed first-in first-out: the run folds over
/// the attempt sequence, so no grant is reordered across the window.
pub proof fn lemma_rate_limit_honored(b: RateLimit, ts: Seq<u64>)
    requires
        b.wf(),
        within_window(b, ts),
    ensures
        run_bucket(b, ts).1 <= b.remaining,
    decreases ts.len(),
{
    if ts.len() > 0 {
        let step = b.spec_acquire(ts[0]);
        assert(ts[0] < b.window_start + b.period);
        assert(!(ts[0] >= b.window_start + b.period));
        assert(step.0.window_start == b.window_start && step.0.period == b.period);
        assert(forall|i: int| 0 <= i < ts.skip(1).len() ==> ts.skip(1)[i] == ts[i + 1]);
        lemma_rate_limit_honored(step.0, ts.skip(1));
    }
}

/// The law at full strength: a fresh window grants at most the capacity.
pub proof fn lemma_rate_limit_cap(b: RateLimit, ts: Seq<u64>)
    requires
        b.wf(),
        within_window(b, ts),
    ensures
        run_bucket(b, ts).1 <= b.cap,
{
    lemma_rate_limit_honored(b, ts);
}

} // verus!
