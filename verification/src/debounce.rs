//! The debounce window: coalescing bursts of raw filesystem events into one
//! batched change notification per quiet window.
//!
//! The window absorbs raw events as they arrive and is polled with the
//! current time. A poll flushes the absorbed events as one non-empty batch
//! exactly when the quiet period has passed since the last event (or, when a
//! maximum delay is configured, when that much time has passed since the
//! first event of the burst). Both periods are tunable parameters, not fixed
//! constants.
//!
//! [`lemma_burst_coalesces`] states the point of the construction: a burst of
//! writes whose gaps are all shorter than the quiet period flushes as exactly
//! one batch carrying every event of the burst.

use vstd::prelude::*;

use crate::filter::ChangeEvent;

verus! {

/// One debounce window: the absorbed burst and its timing. Times are
/// milliseconds on the caller's monotone clock.
pub struct DebounceWindow {
    quiet_ms: u64,
    max_delay_ms: Option<u64>,
    pending: Vec<ChangeEvent>,
    first_at: Option<u64>,
    last_at: Option<u64>,
}

impl DebounceWindow {
    /// The quiet period: how long after the last raw event a batch flushes.
    pub closed spec fn quiet(&self) -> u64 {
        self.quiet_ms
    }

    /// The optional ceiling: how long after the first raw event of a burst a
    /// flush is forced even under continuous activity.
    pub closed spec fn max_delay(&self) -> Option<u64> {
        self.max_delay_ms
    }

    /// The events absorbed since the last flush, oldest first.
    pub closed spec fn pending_events(&self) -> Seq<ChangeEvent> {
        self.pending@
    }

    /// When the first event of the current burst arrived.
    pub closed spec fn first_time(&self) -> Option<u64> {
        self.first_at
    }

    /// When the most recent event arrived.
    pub closed spec fn last_time(&self) -> Option<u64> {
        self.last_at
    }

    /// The window's bookkeeping is consistent: it remembers arrival times
    /// exactly while it holds events.
    pub open spec fn wf(&self) -> bool {
        &&& self.pending_events().len() > 0 <==> self.last_time() is Some
        &&& self.first_time() is Some <==> self.last_time() is Some
    }

    /// Nothing is absorbed: the state between bursts.
    pub open spec fn is_idle(&self) -> bool {
        &&& self.pending_events().len() == 0
        &&& self.first_time() is None
        &&& self.last_time() is None
    }

    /// A fresh, idle window with the given quiet period and optional forced-
    /// flush ceiling, both in milliseconds.
    pub fn new(quiet_ms: u64, max_delay_ms: Option<u64>) -> (w: Self)
        ensures
            w.wf(),
            w.is_idle(),
            w.quiet() == quiet_ms,
            w.max_delay() == max_delay_ms,
    {
        DebounceWindow { quiet_ms, max_delay_ms, pending: Vec::new(), first_at: None, last_at: None }
    }

    /// Absorbs one raw event that arrived at time `now`.
    pub fn on_event(&mut self, now: u64, ev: ChangeEvent)
        requires
            old(self).wf(),
        ensures
            final(self).wf(),
            absorbs(*old(self), now, ev, *final(self)),
    {
        self.pending.push(ev);
        if self.first_at.is_none() {
            self.first_at = Some(now);
        }
        self.last_at = Some(now);
    }

    /// Polls the window at time `now`. Flushes the absorbed burst as one
    /// non-empty batch exactly when a flush is due; otherwise changes
    /// nothing.
    pub fn poll(&mut self, now: u64) -> (r: Option<Vec<ChangeEvent>>)
        requires
            old(self).wf(),
        ensures
            final(self).wf(),
            final(self).quiet() == old(self).quiet(),
            final(self).max_delay() == old(self).max_delay(),
            match r {
                Some(batch) => {
                    &&& due(*old(self), now)
                    &&& batch@ == old(self).pending_events()
                    &&& batch@.len() > 0
                    &&& final(self).is_idle()
                },
                None => {
                    &&& !due(*old(self), now)
                    &&& final(self).pending_events() == old(self).pending_events()
                    &&& final(self).first_time() == old(self).first_time()
                    &&& final(self).last_time() == old(self).last_time()
                },
            },
    {
        let mut is_due = false;
        match self.last_at {
            Some(t) => {
                if now >= t && now - t >= self.quiet_ms {
                    is_due = true;
                }
            },
            None => {},
        }
        match (self.max_delay_ms, self.first_at) {
            (Some(m), Some(f)) => {
                if now >= f && now - f >= m {
                    is_due = true;
                }
            },
            _ => {},
        }
        if is_due {
            let mut batch: Vec<ChangeEvent> = Vec::new();
            core::mem::swap(&mut self.pending, &mut batch);
            self.first_at = None;
            self.last_at = None;
            Some(batch)
        } else {
            None
        }
    }
}

/// How one absorbed event changes the window: the event joins the burst, the
/// last-arrival time becomes `now`, and the first-arrival time is kept (or
/// set, when the burst begins).
pub open spec fn absorbs(
    pre: DebounceWindow,
    now: u64,
    ev: ChangeEvent,
    post: DebounceWindow,
) -> bool {
    &&& post.quiet() == pre.quiet()
    &&& post.max_delay() == pre.max_delay()
    &&& post.pending_events() == pre.pending_events().push(ev)
    &&& post.last_time() == Some(now)
    &&& post.first_time() == if pre.first_time() is Some {
        pre.first_time()
    } else {
        Some(now)
    }
}

/// Whether a poll at time `now` flushes: the quiet period has passed since
/// the last event, or the configured ceiling has passed since the first.
pub open spec fn due(s: DebounceWindow, now: u64) -> bool {
    ||| s.last_time() matches Some(t) && now >= t + s.quiet()
    ||| (s.max_delay() matches Some(m) && s.first_time() matches Some(f) && now >= f + m)
}

/// An idle window never flushes: between bursts, polls are quiet.
pub proof fn lemma_idle_never_due(s: DebounceWindow, now: u64)
    requires
        s.is_idle(),
    ensures
        !due(s, now),
{
}

proof fn lemma_burst_prefix(
    states: Seq<DebounceWindow>,
    times: Seq<u64>,
    evs: Seq<ChangeEvent>,
    k: int,
)
    requires
        evs.len() == times.len(),
        states.len() == times.len() + 1,
        states[0].is_idle(),
        states[0].max_delay() is None,
        forall|i: int|
            0 <= i < times.len() ==> absorbs(states[i], times[i], evs[i], #[trigger] states[i + 1]),
        0 <= k <= times.len(),
    ensures
        states[k].pending_events() == evs.take(k),
        k >= 1 ==> states[k].last_time() == Some(times[k - 1]),
        states[k].max_delay() is None,
        states[k].quiet() == states[0].quiet(),
    decreases k,
{
    if k > 0 {
        lemma_burst_prefix(states, times, evs, k - 1);
        assert(absorbs(states[k - 1], times[k - 1], evs[k - 1], states[(k - 1) + 1]));
        assert(states[(k - 1) + 1] == states[k]);
        assert(evs.take(k) =~= evs.take(k - 1).push(evs[k - 1]));
    } else {
        assert(states[0].pending_events() =~= evs.take(0));
    }
}

/// Coalescing: starting idle, a burst of events whose gaps are all shorter
/// than the quiet period is flushed as exactly one batch. No poll made
/// before the next event of the burst is due (so nothing flushes mid-burst);
/// once the quiet period passes after the last event, a poll is due, and by
/// [`DebounceWindow::poll`]'s contract that one flush carries every event of
/// the burst and leaves the window idle — where, by
/// [`lemma_idle_never_due`], no further poll is due until new activity.
pub proof fn lemma_burst_coalesces(
    states: Seq<DebounceWindow>,
    times: Seq<u64>,
    evs: Seq<ChangeEvent>,
)
    requires
        times.len() >= 1,
        evs.len() == times.len(),
        states.len() == times.len() + 1,
        states[0].is_idle(),
        states[0].max_delay() is None,
        forall|i: int|
            0 <= i < times.len() ==> absorbs(states[i], times[i], evs[i], #[trigger] states[i + 1]),
        forall|i: int| 0 <= i < times.len() - 1 ==> #[trigger] times[i] <= times[i + 1],
        forall|i: int|
            0 <= i < times.len() - 1 ==> #[trigger] times[i + 1] < times[i] + states[0].quiet(),
    ensures
        states.last().pending_events() == evs,
        forall|i: int, now: u64|
            1 <= i < times.len() && now <= times[i] ==> !(#[trigger] due(states[i], now)),
        forall|now: u64|
            now >= times.last() + states[0].quiet() ==> due(states.last(), now),
{
    let n = times.len() as int;
    lemma_burst_prefix(states, times, evs, n);
    assert(states.last() == states[n]);
    assert(states.last().pending_events() =~= evs) by {
        assert(evs.take(n) =~= evs);
    }
    assert forall|i: int, now: u64| 1 <= i < times.len() && now <= times[i] implies !(#[trigger] due(
        states[i],
        now,
    )) by {
        lemma_burst_prefix(states, times, evs, i);
        assert(states[i].last_time() == Some(times[i - 1]));
        assert(times[i] < times[i - 1] + states[0].quiet());
    }
}

} // verus!
