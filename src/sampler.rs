use crate::event::{Event, Key};
use vstd::prelude::*;

verus! {

/// Timing state of the input sampler, on a millisecond clock.
#[derive(Clone, Copy, Debug, PartialEq, Eq, Structural)]
pub struct Sampler {
    /// Length of one tick, in milliseconds.
    pub tick_rate_ms: u64,
    /// When the most recent tick was sent (at first: when sampling started).
    pub last_tick_ms: u64,
}

/// Time since `last`, taken as zero for a clock reading before it.
pub open spec fn elapsed(now: u64, last: u64) -> nat {
    if now >= last {
        (now - last) as nat
    } else {
        0
    }
}

/// How long to wait for a key before the next tick falls due.
pub open spec fn poll_timeout(s: Sampler, now: u64) -> nat {
    if elapsed(now, s.last_tick_ms) >= s.tick_rate_ms {
        0
    } else {
        (s.tick_rate_ms - elapsed(now, s.last_tick_ms)) as nat
    }
}

/// Whether a tick is due at `now`.
pub open spec fn tick_due(s: Sampler, now: u64) -> bool {
    elapsed(now, s.last_tick_ms) >= s.tick_rate_ms
}

/// What one round of the sampler sends, in order, when it reads the clock at
/// `now` after waiting for `key`, and the timing state afterwards.
pub open spec fn sample(s: Sampler, now: u64, key: Option<Key>) -> (Sampler, Seq<Event<Key>>) {
    let inputs = match key {
        Some(k) => seq![Event::Input(k)],
        None => Seq::empty(),
    };
    if tick_due(s, now) {
        (Sampler { tick_rate_ms: s.tick_rate_ms, last_tick_ms: now }, inputs.push(Event::Tick))
    } else {
        (s, inputs)
    }
}

impl Sampler {
    /// A sampler with ticks of `tick_rate_ms`, started at `start_ms`.
    pub fn new(tick_rate_ms: u64, start_ms: u64) -> (r: Sampler)
        ensures
            r.tick_rate_ms == tick_rate_ms,
            r.last_tick_ms == start_ms,
    {
        Sampler { tick_rate_ms, last_tick_ms: start_ms }
    }

    /// How long the sampler may wait for a key at `now_ms`: the tick interval
    /// less the time since the last tick, and zero once that is used up.
    pub fn timeout(&self, now_ms: u64) -> (r: u64)
        ensures
            r as nat == poll_timeout(*self, now_ms),
            r <= self.tick_rate_ms,
    {
        let since = now_ms.saturating_sub(self.last_tick_ms);
        self.tick_rate_ms.saturating_sub(since)
    }

    /// One round of sampling: the key read in this round, if any, goes out
    /// first; then a tick, if one is due at `now_ms`, and the tick clock
    /// restarts at `now_ms`. A key does not restart the tick clock.
    pub fn sample(&mut self, now_ms: u64, key: Option<Key>) -> (r: Vec<Event<Key>>)
        ensures
            (*final(self), r@) == sample(*old(self), now_ms, key),
    {
        let mut out: Vec<Event<Key>> = Vec::new();
        match key {
            Some(k) => out.push(Event::Input(k)),
            None => {},
        }
        let since = now_ms.saturating_sub(self.last_tick_ms);
        if since >= self.tick_rate_ms {
            out.push(Event::Tick);
            self.last_tick_ms = now_ms;
        }
        proof {
            assert(out@ == sample(*old(self), now_ms, key).1);
        }
        out
    }
}

/// A round whose wait for a key ran its whole timeout sends a tick, and the
/// next tick then falls due one interval later: with no input, ticks come at
/// least once per interval, late only by how long the clock read takes.
pub proof fn lemma_tick_after_full_wait(s: Sampler, now: u64, later: u64, key: Option<Key>)
    requires
        s.last_tick_ms <= now,
        later >= now + poll_timeout(s, now),
    ensures
        tick_due(s, later),
        sample(s, later, key).1.last() == Event::<Key>::Tick,
        sample(s, later, key).0.last_tick_ms == later,
        poll_timeout(sample(s, later, key).0, later) == s.tick_rate_ms,
{
}

/// The wait for a key never runs past the moment the next tick falls due:
/// it ends at `last_tick_ms + tick_rate_ms`, or at once when that has passed.
pub proof fn lemma_wait_ends_at_deadline(s: Sampler, now: u64)
    requires
        s.last_tick_ms <= now,
    ensures
        now + poll_timeout(s, now) == if now >= s.last_tick_ms + s.tick_rate_ms {
            now as int
        } else {
            s.last_tick_ms + s.tick_rate_ms
        },
        poll_timeout(s, now) <= s.tick_rate_ms,
{
}

/// A round without a key and before the tick is due sends nothing and keeps
/// the tick clock.
pub proof fn lemma_quiet_round(s: Sampler, now: u64)
    requires
        !tick_due(s, now),
    ensures
        sample(s, now, None).1 == Seq::<Event<Key>>::empty(),
        sample(s, now, None).0 == s,
{
}

/// A round sends the key it read first, and never more than one key and one tick.
pub proof fn lemma_round_order(s: Sampler, now: u64, k: Key)
    ensures
        sample(s, now, Some(k)).1[0] == Event::Input(k),
        sample(s, now, Some(k)).1.len() == if tick_due(s, now) { 2int } else { 1int },
        sample(s, now, Some(k)).0.last_tick_ms == if tick_due(s, now) { now } else { s.last_tick_ms },
{
}

/// Clock readings and sends of consecutive sampler rounds in which no key
/// arrives: each round's wait runs its whole timeout, and the clock is read
/// `lags[i]` late after it. The run ends when the clock would leave `u64`.
pub open spec fn idle_rounds(s: Sampler, now: u64, lags: Seq<u64>) -> Seq<(int, Seq<Event<Key>>)>
    decreases lags.len(),
{
    if lags.len() == 0 {
        Seq::empty()
    } else {
        let t = now + poll_timeout(s, now) + lags[0];
        if t > u64::MAX {
            Seq::empty()
        } else {
            let next = sample(s, t as u64, None);
            seq![(t, next.1)] + idle_rounds(next.0, t as u64, lags.subrange(1, lags.len() as int))
        }
    }
}

/// With no key, every round sends exactly one tick and nothing else; the
/// first comes at most `lag` after the tick that was due, and each later one
/// at most one interval plus `lag` after the one before. So any window longer
/// than the interval plus the clock's lag holds a tick.
pub proof fn lemma_idle_tick_window(s: Sampler, now: u64, lags: Seq<u64>, lag: u64)
    requires
        s.last_tick_ms <= now,
        forall|i: int| 0 <= i < lags.len() ==> lags[i] <= lag,
    ensures
        forall|i: int|
            0 <= i < idle_rounds(s, now, lags).len() ==> idle_rounds(s, now, lags)[i].1 == seq![
                Event::<Key>::Tick,
            ],
        idle_rounds(s, now, lags).len() > 0 ==> idle_rounds(s, now, lags)[0].0 <= if now
            >= s.last_tick_ms + s.tick_rate_ms {
            now as int
        } else {
            s.last_tick_ms + s.tick_rate_ms
        } + lag,
        forall|i: int|
            0 <= i < idle_rounds(s, now, lags).len() - 1 ==> idle_rounds(s, now, lags)[i + 1].0
                - #[trigger] idle_rounds(s, now, lags)[i].0 <= s.tick_rate_ms + lag,
    decreases lags.len(),
{
    let tr = idle_rounds(s, now, lags);
    if lags.len() > 0 {
        let t = now + poll_timeout(s, now) + lags[0];
        if t <= u64::MAX {
            lemma_wait_ends_at_deadline(s, now);
            let next = sample(s, t as u64, None);
            lemma_tick_after_full_wait(s, now, t as u64, None);
            let rest_lags = lags.subrange(1, lags.len() as int);
            lemma_idle_tick_window(next.0, t as u64, rest_lags, lag);
            let rest = idle_rounds(next.0, t as u64, rest_lags);
            assert(tr == seq![(t, next.1)] + rest);
            assert(next.1 == seq![Event::<Key>::Tick]);
            assert forall|i: int| 0 <= i < tr.len() implies tr[i].1 == seq![Event::<Key>::Tick] by {
                if i > 0 {
                    assert(tr[i] == rest[i - 1]);
                }
            }
            assert forall|i: int| 0 <= i < tr.len() - 1 implies tr[i + 1].0 - #[trigger] tr[i].0
                <= s.tick_rate_ms + lag by {
                assert(tr[i + 1] == rest[i]);
                if i > 0 {
                    assert(tr[i] == rest[i - 1]);
                }
            }
        }
    }
}

} // verus!
