//! The throttle: a bucket of tokens that paces the requests of all users.
//! A user puts a token into the bucket before each request and waits
//! while the bucket is full; a leak takes tokens out at the configured
//! rate. So no more requests are made than tokens leak out, but for what
//! the bucket holds.

use crate::launch::{ThrottlePlan, NANOS_PER_SECOND};
use crate::options::MAX_THROTTLE_REQUESTS;
use vstd::arithmetic::div_mod::{
    lemma_div_by_multiple, lemma_div_is_ordered, lemma_div_pos_is_pos, lemma_fundamental_div_mod,
    lemma_mod_bound,
};
use vstd::prelude::*;

verus! {

/// The bucket of the throttle.
#[derive(Clone, Copy, Debug, PartialEq, Eq, Structural)]
pub struct Throttle {
    /// How many tokens the bucket holds at most: the number of requests
    /// allowed each second.
    pub capacity: usize,
    /// How many tokens are in the bucket.
    pub tokens: usize,
}

/// What happens to the bucket.
#[derive(Clone, Copy, Debug, PartialEq, Eq, Structural)]
pub enum ThrottleEvent {
    /// A user asks to make a request.
    Acquire,
    /// The leak takes a token out.
    Leak,
}

/// The bucket after a user asked to make a request: a bucket that is not
/// full takes the token of the user.
pub open spec fn after_acquire(t: Throttle) -> Throttle {
    if t.tokens < t.capacity {
        Throttle { tokens: (t.tokens + 1) as usize, ..t }
    } else {
        t
    }
}

/// The bucket after the leak took a token out, if there was one.
pub open spec fn after_leak(t: Throttle) -> Throttle {
    if t.tokens > 0 {
        Throttle { tokens: (t.tokens - 1) as usize, ..t }
    } else {
        t
    }
}

/// The bucket after a series of events.
pub open spec fn after_events(t: Throttle, events: Seq<ThrottleEvent>) -> Throttle
    decreases events.len(),
{
    if events.len() == 0 {
        t
    } else {
        let before = after_events(t, events.drop_last());
        match events.last() {
            ThrottleEvent::Acquire => after_acquire(before),
            ThrottleEvent::Leak => after_leak(before),
        }
    }
}

/// How many requests were let through in a series of events.
pub open spec fn admitted(t: Throttle, events: Seq<ThrottleEvent>) -> nat
    decreases events.len(),
{
    if events.len() == 0 {
        0
    } else {
        let before = after_events(t, events.drop_last());
        admitted(t, events.drop_last()) + if events.last() == ThrottleEvent::Acquire
            && before.tokens < before.capacity {
            1nat
        } else {
            0nat
        }
    }
}

/// How many tokens leaked out in a series of events.
pub open spec fn leaked(t: Throttle, events: Seq<ThrottleEvent>) -> nat
    decreases events.len(),
{
    if events.len() == 0 {
        0
    } else {
        let before = after_events(t, events.drop_last());
        leaked(t, events.drop_last()) + if events.last() == ThrottleEvent::Leak && before.tokens
            > 0 {
            1nat
        } else {
            0nat
        }
    }
}

/// No token is lost: the tokens in the bucket are those that were there,
/// with those of the requests let through and without those that leaked
/// out; and the bucket never holds more than its capacity.
pub proof fn lemma_tokens_kept(t: Throttle, events: Seq<ThrottleEvent>)
    requires
        t.wf(),
    ensures
        after_events(t, events).wf(),
        after_events(t, events).capacity == t.capacity,
        after_events(t, events).tokens + leaked(t, events) == t.tokens + admitted(t, events),
    decreases events.len(),
{
    if events.len() > 0 {
        lemma_tokens_kept(t, events.drop_last());
    }
}

/// The throttle holds the rate: over any series of events, the requests
/// let through are at most the tokens that leaked out and the room that
/// the bucket had before. From its start, filled but for one token, the
/// throttle lets through one request more than tokens leak out, at most.
pub proof fn lemma_throttle_holds_rate(t: Throttle, events: Seq<ThrottleEvent>)
    requires
        t.wf(),
    ensures
        admitted(t, events) <= leaked(t, events) + (t.capacity - t.tokens),
        t.tokens + 1 == t.capacity ==> admitted(t, events) <= leaked(t, events) + 1,
{
    lemma_tokens_kept(t, events);
}

/// An event of the throttle and the time at which it happens, in
/// nanoseconds.
pub struct TimedEvent {
    /// When it happens.
    pub at: nat,
    /// What happens.
    pub event: ThrottleEvent,
}

/// The events of a series of timed events.
pub open spec fn events_of(timed: Seq<TimedEvent>) -> Seq<ThrottleEvent> {
    Seq::new(timed.len(), |i: int| timed[i].event)
}

/// The leak runs no more often than once in `interval` nanoseconds: a
/// later leak comes that much after an earlier one, at least.
pub open spec fn paced(timed: Seq<TimedEvent>, interval: nat) -> bool {
    forall|i: int, j: int|
        0 <= i < j < timed.len() && (#[trigger] timed[i]).event == ThrottleEvent::Leak && (
        #[trigger] timed[j]).event == ThrottleEvent::Leak ==> timed[i].at + interval
            <= timed[j].at
}

/// All events happen in the `span` nanoseconds that begin at `from`.
pub open spec fn within(timed: Seq<TimedEvent>, from: nat, span: nat) -> bool {
    forall|i: int| 0 <= i < timed.len() ==> from <= (#[trigger] timed[i]).at <= from + span
}

/// How often the leak ran in a series of events.
pub open spec fn leak_count(events: Seq<ThrottleEvent>) -> nat
    decreases events.len(),
{
    if events.len() == 0 {
        0
    } else {
        leak_count(events.drop_last()) + if events.last() == ThrottleEvent::Leak {
            1nat
        } else {
            0nat
        }
    }
}

/// No more tokens leak out than the leak ran.
pub proof fn lemma_leaked_at_most_leaks(t: Throttle, events: Seq<ThrottleEvent>)
    ensures
        leaked(t, events) <= leak_count(events),
    decreases events.len(),
{
    if events.len() > 0 {
        lemma_leaked_at_most_leaks(t, events.drop_last());
    }
}

/// A leak that runs no more often than once in `interval` has, where it
/// ran at all, a run that comes after as many intervals as it ran before.
pub proof fn lemma_paced_leaks(timed: Seq<TimedEvent>, interval: nat, from: nat, span: nat)
    requires
        paced(timed, interval),
        within(timed, from, span),
    ensures
        leak_count(events_of(timed)) >= 1 ==> exists|k: int|
            0 <= k < timed.len() && (#[trigger] timed[k]).event == ThrottleEvent::Leak && from + (
            leak_count(events_of(timed)) - 1) * interval <= timed[k].at,
    decreases timed.len(),
{
    if timed.len() > 0 {
        let rest = timed.drop_last();
        let last = timed.last();
        assert(events_of(timed).drop_last() =~= events_of(rest));
        assert(events_of(timed).last() == last.event);
        assert forall|i: int, j: int|
            0 <= i < j < rest.len() && (#[trigger] rest[i]).event == ThrottleEvent::Leak && (
            #[trigger] rest[j]).event == ThrottleEvent::Leak implies rest[i].at + interval
            <= rest[j].at by {
            assert(rest[i] == timed[i] && rest[j] == timed[j]);
        }
        assert forall|i: int| 0 <= i < rest.len() implies from <= (#[trigger] rest[i]).at <= from
            + span by {
            assert(rest[i] == timed[i]);
        }
        lemma_paced_leaks(rest, interval, from, span);
        let before = leak_count(events_of(rest));
        if last.event == ThrottleEvent::Leak {
            let at = timed.len() - 1;
            assert(timed[at] == last);
            if before >= 1 {
                let k = choose|k: int|
                    0 <= k < rest.len() && (#[trigger] rest[k]).event == ThrottleEvent::Leak && from
                        + (before - 1) * interval <= rest[k].at;
                assert(rest[k] == timed[k]);
                assert(timed[k].at + interval <= timed[at].at);
                assert((before - 1) * interval + interval == before * interval)
                    by (nonlinear_arith);
            } else {
                assert((before + 1 - 1) * interval == 0) by (nonlinear_arith)
                    requires
                        before == 0,
                ;
            }
            assert(from + (leak_count(events_of(timed)) - 1) * interval <= timed[at].at);
        } else if before >= 1 {
            let k = choose|k: int|
                0 <= k < rest.len() && (#[trigger] rest[k]).event == ThrottleEvent::Leak && from + (
                before - 1) * interval <= rest[k].at;
            assert(rest[k] == timed[k]);
        }
    }
}

/// The throttle holds the rate over time: where the leak runs no more
/// often than once in `interval` nanoseconds, the requests let through in
/// any `span` nanoseconds are at most one for each interval that fits
/// into the span, one more, and the room that the bucket had before.
pub proof fn lemma_throttle_holds_rate_over_time(
    t: Throttle,
    timed: Seq<TimedEvent>,
    interval: nat,
    from: nat,
    span: nat,
)
    requires
        t.wf(),
        interval > 0,
        paced(timed, interval),
        within(timed, from, span),
    ensures
        admitted(t, events_of(timed)) <= span / interval + 1 + (t.capacity - t.tokens),
{
    let events = events_of(timed);
    lemma_throttle_holds_rate(t, events);
    lemma_leaked_at_most_leaks(t, events);
    lemma_paced_leaks(timed, interval, from, span);
    let leaks = leak_count(events);
    if leaks >= 1 {
        let k = choose|k: int|
            0 <= k < timed.len() && (#[trigger] timed[k]).event == ThrottleEvent::Leak && from + (
            leaks - 1) * interval <= timed[k].at;
        assert((leaks - 1) * interval <= span);
        lemma_fits(leaks - 1, interval as int, span as int);
    }
}

/// What fits `n` times into a span fits at least as often as `n`.
pub proof fn lemma_fits(n: int, interval: int, span: int)
    requires
        n >= 0,
        interval > 0,
        n * interval <= span,
    ensures
        n <= span / interval,
{
    lemma_div_is_ordered(n * interval, span, interval);
    lemma_div_by_multiple(n, interval);
}

/// Within five in a hundred: with the leak at its pace for `capacity`
/// requests each second, a bucket that is full lets through, in any
/// `seconds` seconds in which at least 21 requests are allowed, no more
/// than 105 requests for each 100 that are allowed.
pub proof fn lemma_throttle_within_five_percent(
    t: Throttle,
    timed: Seq<TimedEvent>,
    from: nat,
    seconds: nat,
)
    requires
        t.wf(),
        t.tokens == t.capacity,
        paced(timed, NANOS_PER_SECOND as nat / t.capacity as nat),
        within(timed, from, seconds * NANOS_PER_SECOND as nat),
        t.capacity * seconds >= 21,
    ensures
        100 * admitted(t, events_of(timed)) <= 105 * (t.capacity * seconds),
{
    let rate = t.capacity as int;
    let second = NANOS_PER_SECOND as int;
    let interval = second / rate;
    let span = seconds as int * second;
    let allowed = rate * seconds as int;
    lemma_fundamental_div_mod(second, rate);
    lemma_mod_bound(second, rate);
    assert(rate * interval >= 999_000_001);
    assert(interval > 0) by (nonlinear_arith)
        requires
            rate * interval >= 999_000_001,
            rate >= 1,
    ;
    lemma_throttle_holds_rate_over_time(t, timed, interval as nat, from, span as nat);
    let fit = span / interval;
    lemma_fundamental_div_mod(span, interval);
    lemma_mod_bound(span, interval);
    assert(interval * fit <= span);
    assert(fit >= 0) by {
        lemma_div_pos_is_pos(span, interval);
    }
    assert(999 * fit <= 1000 * allowed) by (nonlinear_arith)
        requires
            fit >= 0,
            interval * fit <= seconds * 1_000_000_000,
            rate * interval >= 999_000_001,
            allowed == rate * seconds,
            rate >= 1,
            seconds >= 0,
            interval >= 0,
    ;
    assert(admitted(t, events_of(timed)) <= fit + 1);
}

impl Throttle {
    /// The bucket holds at least one token and at most 1,000,000, and no
    /// more tokens are in it than it holds.
    pub open spec fn wf(&self) -> bool {
        1 <= self.capacity <= MAX_THROTTLE_REQUESTS && self.tokens <= self.capacity
    }

    /// The bucket for a limit of requests each second, filled but for one
    /// token so that the load test does not start with a burst; none for a
    /// limit that is zero or above 1,000,000.
    pub fn new(requests_per_second: usize) -> (r: Option<Throttle>)
        ensures
            match r {
                Some(t) => 1 <= requests_per_second <= MAX_THROTTLE_REQUESTS && t.wf() && t.capacity
                    == requests_per_second && t.tokens == requests_per_second - 1,
                None => requests_per_second == 0 || requests_per_second > MAX_THROTTLE_REQUESTS,
            },
    {
        if requests_per_second == 0 || requests_per_second > MAX_THROTTLE_REQUESTS {
            None
        } else {
            Some(Throttle { capacity: requests_per_second, tokens: requests_per_second - 1 })
        }
    }

    /// The bucket that a plan asks for.
    pub fn from_plan(plan: ThrottlePlan) -> (r: Throttle)
        ensures
            r.capacity == plan.capacity,
            r.tokens == plan.prefill,
    {
        Throttle { capacity: plan.capacity, tokens: plan.prefill }
    }

    /// A user asks to make a request: it may where the bucket has room
    /// for its token, and has to wait otherwise.
    pub fn try_acquire(&mut self) -> (r: bool)
        ensures
            r == (old(self).tokens < old(self).capacity),
            *final(self) == after_acquire(*old(self)),
            old(self).wf() ==> final(self).wf(),
    {
        if self.tokens < self.capacity {
            self.tokens = self.tokens + 1;
            true
        } else {
            false
        }
    }

    /// The leak takes a token out of the bucket, if there is one.
    pub fn leak(&mut self) -> (r: bool)
        ensures
            r == (old(self).tokens > 0),
            *final(self) == after_leak(*old(self)),
            old(self).wf() ==> final(self).wf(),
    {
        if self.tokens > 0 {
            self.tokens = self.tokens - 1;
            true
        } else {
            false
        }
    }

    /// The pause between two leaks, in nanoseconds: the part of a second
    /// that falls on each of the requests allowed in a second.
    pub fn leak_interval(&self) -> (r: u64)
        ensures
            r == if self.capacity == 0 {
                0
            } else {
                (NANOS_PER_SECOND as int / self.capacity as int) as u64
            },
    {
        if self.capacity == 0 {
            0
        } else {
            NANOS_PER_SECOND / (self.capacity as u64)
        }
    }
}

} // verus!
