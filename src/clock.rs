use vstd::prelude::*;
use crate::event::{Event, KeyPress};

verus! {

/// The interval between two ticks, in milliseconds.
pub const TICK_RATE_MS: u64 = 200;

/// The pacing state of the event source. Times are milliseconds read
/// from a monotonic clock; `last_tick` is when the last tick was sent
/// (or when the source started).
#[derive(Clone, Copy, Debug, PartialEq, Eq, Structural)]
pub struct TickClock {
    pub tick_rate: u64,
    pub last_tick: u64,
}

/// A full tick interval has passed since the last tick.
pub open spec fn tick_due(c: TickClock, now: int) -> bool {
    now - c.last_tick >= c.tick_rate
}

/// How long the source may wait for a key before the next tick is owed:
/// the interval less the time elapsed since the last tick, never below zero.
pub open spec fn budget(c: TickClock, now: int) -> int {
    if tick_due(c, now) {
        0
    } else {
        c.tick_rate - (now - c.last_tick)
    }
}

/// One step of the source at time `now`, after a wait that either saw a
/// key-press or ran out: a key is passed on at once and leaves the clock
/// alone; otherwise a tick goes out if one is due, and restarts the clock.
pub open spec fn source_step(c: TickClock, now: u64, key: Option<KeyPress>) -> (TickClock, Option<Event<KeyPress>>) {
    match key {
        Some(k) => (c, Some(Event::Input(k))),
        None => if tick_due(c, now as int) {
            (TickClock { tick_rate: c.tick_rate, last_tick: now }, Some(Event::Tick))
        } else {
            (c, None)
        },
    }
}

/// The events that a run of steps sends, in order; each poll is the time
/// at which the wait ended and the key it saw, if any.
pub open spec fn emitted(c: TickClock, polls: Seq<(u64, Option<KeyPress>)>) -> Seq<Event<KeyPress>>
    decreases polls.len(),
{
    if polls.len() == 0 {
        Seq::empty()
    } else {
        let (next, out) = source_step(c, polls[0].0, polls[0].1);
        let rest = emitted(next, polls.drop_first());
        match out {
            Some(e) => seq![e] + rest,
            None => rest,
        }
    }
}

/// The key-presses that the polls saw, in order.
pub open spec fn keys_seen(polls: Seq<(u64, Option<KeyPress>)>) -> Seq<KeyPress>
    decreases polls.len(),
{
    if polls.len() == 0 {
        Seq::empty()
    } else {
        match polls[0].1 {
            Some(k) => seq![k] + keys_seen(polls.drop_first()),
            None => keys_seen(polls.drop_first()),
        }
    }
}

/// The key-presses that a stream of events carries, in order.
pub open spec fn inputs_of(events: Seq<Event<KeyPress>>) -> Seq<KeyPress>
    decreases events.len(),
{
    if events.len() == 0 {
        Seq::empty()
    } else {
        match events[0] {
            Event::Input(k) => seq![k] + inputs_of(events.drop_first()),
            Event::Tick => inputs_of(events.drop_first()),
        }
    }
}

/// The number of ticks in a stream of events.
pub open spec fn ticks_of(events: Seq<Event<KeyPress>>) -> nat
    decreases events.len(),
{
    if events.len() == 0 {
        0
    } else {
        (if events[0] is Tick { 1nat } else { 0nat }) + ticks_of(events.drop_first())
    }
}

/// The polls end in order of time, none before the clock's last tick and
/// none after `until`.
pub open spec fn polls_within(c: TickClock, polls: Seq<(u64, Option<KeyPress>)>, until: int) -> bool {
    &&& forall|i: int| 0 <= i < polls.len() ==> c.last_tick <= #[trigger] polls[i].0 <= until
    &&& forall|i: int, j: int| 0 <= i <= j < polls.len() ==> #[trigger] polls[i].0 <= #[trigger] polls[j].0
}

impl TickClock {
    /// A clock with the given interval whose first tick is owed one
    /// interval after `now`.
    pub fn new(tick_rate: u64, now: u64) -> (r: TickClock)
        ensures
            r.tick_rate == tick_rate,
            r.last_tick == now,
    {
        TickClock { tick_rate, last_tick: now }
    }

    /// Whether a full interval has passed since the last tick.
    pub fn is_due(&self, now: u64) -> (r: bool)
        requires
            self.last_tick <= now,
        ensures
            r == tick_due(*self, now as int),
    {
        now - self.last_tick >= self.tick_rate
    }

    /// How long to wait for a key-press at time `now`.
    pub fn timeout(&self, now: u64) -> (r: u64)
        requires
            self.last_tick <= now,
        ensures
            r == budget(*self, now as int),
            r <= self.tick_rate,
    {
        let elapsed = now - self.last_tick;
        if elapsed >= self.tick_rate {
            0
        } else {
            self.tick_rate - elapsed
        }
    }

    /// Decides what the source sends once a wait has ended at `now`,
    /// having seen `key` or nothing. A tick is never sent before a full
    /// interval has passed since the previous one; a key is always passed
    /// on, whenever it comes.
    pub fn next(&mut self, now: u64, key: Option<KeyPress>) -> (r: Option<Event<KeyPress>>)
        requires
            old(self).last_tick <= now,
        ensures
            (*final(self), r) == source_step(*old(self), now, key),
            r == Some(Event::<KeyPress>::Tick) ==> now - old(self).last_tick >= old(self).tick_rate,
            final(self).tick_rate == old(self).tick_rate,
            final(self).last_tick <= now,
    {
        match key {
            Some(k) => Some(Event::Input(k)),
            None => {
                if self.is_due(now) {
                    self.last_tick = now;
                    Some(Event::Tick)
                } else {
                    None
                }
            },
        }
    }
}

/// Every key-press that the polls see is sent as exactly one input event,
/// in the order in which the keys came, whatever ticks fall between them.
pub proof fn lemma_no_input_dropped(c: TickClock, polls: Seq<(u64, Option<KeyPress>)>)
    ensures
        inputs_of(emitted(c, polls)) == keys_seen(polls),
    decreases polls.len(),
{
    if polls.len() == 0 {
        assert(emitted(c, polls) == Seq::<Event<KeyPress>>::empty());
        assert(ticks_of(emitted(c, polls)) == 0);
    } else {
        let (next, out) = source_step(c, polls[0].0, polls[0].1);
        let rest = emitted(next, polls.drop_first());
        lemma_no_input_dropped(next, polls.drop_first());
        match out {
            Some(e) => {
                let s = seq![e] + rest;
                assert(s.drop_first() =~= rest);
            },
            None => {},
        }
    }
}

/// Ticks are spaced by at least one interval: from the clock's last tick
/// up to `until`, the source sends no more ticks than whole intervals fit.
pub proof fn lemma_tick_spacing(c: TickClock, polls: Seq<(u64, Option<KeyPress>)>, until: int)
    requires
        c.last_tick <= until,
        polls_within(c, polls, until),
    ensures
        ticks_of(emitted(c, polls)) * c.tick_rate <= until - c.last_tick,
    decreases polls.len(),
{
    if polls.len() == 0 {
        assert(emitted(c, polls) == Seq::<Event<KeyPress>>::empty());
        assert(ticks_of(emitted(c, polls)) == 0);
    } else {
        let (next, out) = source_step(c, polls[0].0, polls[0].1);
        let rest_polls = polls.drop_first();
        let rest = emitted(next, rest_polls);
        assert forall|i: int| 0 <= i < rest_polls.len() implies next.last_tick <= #[trigger] rest_polls[i].0 <= until by {
            assert(rest_polls[i] == polls[i + 1]);
            assert(polls[0].0 <= polls[i + 1].0);
        }
        assert forall|i: int, j: int| 0 <= i <= j < rest_polls.len() implies #[trigger] rest_polls[i].0 <= #[trigger] rest_polls[j].0 by {
            assert(rest_polls[i] == polls[i + 1]);
            assert(rest_polls[j] == polls[j + 1]);
        }
        lemma_tick_spacing(next, rest_polls, until);
        assert(c.last_tick <= polls[0].0 <= until);
        match out {
            Some(e) => {
                let s = seq![e] + rest;
                assert(emitted(c, polls) == s);
                assert(s.drop_first() =~= rest);
                if e is Tick {
                    assert(polls[0].1 is None && tick_due(c, polls[0].0 as int));
                    assert(next.last_tick == polls[0].0 && next.tick_rate == c.tick_rate);
                    assert(ticks_of(s) == 1 + ticks_of(rest));
                    assert((1 + ticks_of(rest)) * c.tick_rate == c.tick_rate + ticks_of(rest) * c.tick_rate) by (nonlinear_arith);
                    assert(ticks_of(rest) * c.tick_rate <= until - polls[0].0);
                    assert(ticks_of(s) * c.tick_rate <= until - c.last_tick);
                } else {
                    assert(next == c);
                    assert(ticks_of(s) == ticks_of(rest));
                }
            },
            None => {
                assert(next == c);
                assert(emitted(c, polls) == rest);
            },
        }
    }
}

} // verus!
