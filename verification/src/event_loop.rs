//! The event-loop state machine: the single control-flow authority that
//! decides, once per loop iteration, whether to quit, whether a metrics
//! sample is due, and that a render follows every iteration that is not
//! shutting down. The loop driver performs the waiting, polling, sampling
//! and drawing; every decision is taken here.
//!
//! Times are plain milliseconds from any monotone clock the driver chooses.

use vstd::prelude::*;

use crate::input::{quit_requested, Action, Key};

verus! {

/// Default target interval between samples, in milliseconds.
pub const TICK_RATE_MS_DEFAULT: u64 = 250;

/// What the driver observed in one loop iteration: the clock when the wait
/// ended and the input event, if one arrived within the wait window.
#[derive(Clone, Copy, Debug, PartialEq, Eq)]
pub struct LoopEvent {
    pub now_ms: u64,
    pub input: Option<Key>,
}

/// What the driver must do after one iteration's decision: stop the loop,
/// take a metrics sample, and/or render the latest snapshot.
#[derive(Clone, Copy, Debug, PartialEq, Eq, Structural)]
pub struct Directive {
    pub quit: bool,
    pub sample: bool,
    pub render: bool,
}

/// The loop's own state: the sampling cadence, when the last sample was
/// taken, and whether shutdown was requested.
pub struct EventLoop {
    tick_rate_ms: u64,
    last_sample_ms: u64,
    quitting: bool,
}

impl EventLoop {
    /// Target interval between samples, fixed at construction.
    pub closed spec fn tick_rate(self) -> u64 {
        self.tick_rate_ms
    }

    /// Clock reading at which the last sample was taken.
    pub closed spec fn last_sample(self) -> u64 {
        self.last_sample_ms
    }

    /// Whether a quit action has been observed.
    pub closed spec fn quitting(self) -> bool {
        self.quitting
    }

    /// A sample is due once at least one tick has elapsed since the last one.
    pub open spec fn sample_due(self, now_ms: u64) -> bool {
        now_ms - self.last_sample() >= self.tick_rate()
    }

    /// The state after one iteration that observed `e`.
    pub closed spec fn step(self, e: LoopEvent) -> EventLoop {
        if self.quitting || quit_requested(e.input) {
            EventLoop { quitting: true, ..self }
        } else if self.sample_due(e.now_ms) {
            EventLoop { last_sample_ms: e.now_ms, ..self }
        } else {
            self
        }
    }

    /// The directive issued by one iteration that observed `e`.
    pub closed spec fn step_directive(self, e: LoopEvent) -> Directive {
        if self.quitting || quit_requested(e.input) {
            Directive { quit: true, sample: false, render: false }
        } else {
            Directive { quit: false, sample: self.sample_due(e.now_ms), render: true }
        }
    }

    /// The state after a whole run of iterations.
    pub open spec fn run(self, events: Seq<LoopEvent>) -> EventLoop
        decreases events.len(),
    {
        if events.len() == 0 {
            self
        } else {
            self.step(events[0]).run(events.skip(1))
        }
    }

    /// A loop that has not sampled since `start_ms` and was not asked to
    /// quit. With `start_ms` the clock of the startup sample, the first
    /// in-loop sample falls one tick later.
    pub fn new(tick_rate_ms: u64, start_ms: u64) -> (lp: EventLoop)
        ensures
            lp.tick_rate() == tick_rate_ms,
            lp.last_sample() == start_ms,
            !lp.quitting(),
    {
        EventLoop { tick_rate_ms, last_sample_ms: start_ms, quitting: false }
    }

    /// Target interval between samples, in milliseconds.
    pub fn tick_rate_ms(&self) -> (tick: u64)
        ensures
            tick == self.tick_rate(),
    {
        self.tick_rate_ms
    }

    /// Clock reading, in milliseconds, at which the last sample was taken.
    pub fn last_sample_ms(&self) -> (last: u64)
        ensures
            last == self.last_sample(),
    {
        self.last_sample_ms
    }

    /// Whether a quit action has been observed.
    pub fn is_quitting(&self) -> (quitting: bool)
        ensures
            quitting == self.quitting(),
    {
        self.quitting
    }

    /// How long the driver may block waiting for input: the remainder of the
    /// current tick, and zero once a sample is overdue. The loop's only
    /// suspension point is bounded by this, so it never blocks indefinitely.
    pub fn wait_budget(&self, now_ms: u64) -> (wait_ms: u64)
        requires
            now_ms >= self.last_sample(),
        ensures
            self.sample_due(now_ms) ==> wait_ms == 0,
            !self.sample_due(now_ms) ==> wait_ms == self.tick_rate() - (now_ms
                - self.last_sample()),
            wait_ms <= self.tick_rate(),
    {
        let elapsed = now_ms - self.last_sample_ms;
        if elapsed >= self.tick_rate_ms {
            0
        } else {
            self.tick_rate_ms - elapsed
        }
    }

    /// Decides one iteration. Input is always considered before sampling: a
    /// quit request stops the loop at once, with no further sample and no
    /// further render. Otherwise a sample is directed exactly when one tick
    /// has elapsed since the last sample (which resets the cadence), and a
    /// render is directed on every iteration.
    pub fn advance(&mut self, now_ms: u64, input: Option<Key>) -> (directive: Directive)
        requires
            now_ms >= old(self).last_sample(),
        ensures
            *final(self) == old(self).step(LoopEvent { now_ms, input }),
            directive == old(self).step_directive(LoopEvent { now_ms, input }),
            directive.quit == (old(self).quitting() || quit_requested(input)),
            final(self).quitting() == (old(self).quitting() || quit_requested(input)),
            directive.sample == (!directive.quit && old(self).sample_due(now_ms)),
            directive.render == !directive.quit,
            directive.sample ==> final(self).last_sample() == now_ms,
            !directive.sample ==> final(self).last_sample() == old(self).last_sample(),
            final(self).tick_rate() == old(self).tick_rate(),
    {
        if self.quitting {
            return Directive { quit: true, sample: false, render: false };
        }
        let quit = match input {
            Some(key) => match crate::input::action_for(key) {
                Action::Quit => true,
                Action::NoOp => false,
            },
            None => false,
        };
        if quit {
            self.quitting = true;
            return Directive { quit: true, sample: false, render: false };
        }
        let sample = now_ms - self.last_sample_ms >= self.tick_rate_ms;
        if sample {
            self.last_sample_ms = now_ms;
        }
        Directive { quit: false, sample, render: true }
    }

    /// One iteration keeps the tick rate, never lowers the last-sample clock,
    /// keeps a quitting loop quitting, and directs a sample only when one is
    /// due — in which case the last-sample clock becomes that iteration's.
    proof fn lemma_step_basics(self, e: LoopEvent)
        ensures
            self.step(e).tick_rate() == self.tick_rate(),
            self.step(e).last_sample() >= self.last_sample(),
            self.quitting() ==> self.step(e).quitting() && !self.step_directive(e).sample
                && !self.step_directive(e).render,
            self.step_directive(e).sample ==> e.now_ms >= self.last_sample() + self.tick_rate()
                && self.step(e).last_sample() == e.now_ms,
            !self.step_directive(e).sample ==> self.step(e).last_sample() == self.last_sample(),
    {
    }

    /// Along any run: the tick rate is fixed, the last-sample clock never
    /// moves backwards, and a quitting loop stays quitting.
    proof fn lemma_run_basics(self, events: Seq<LoopEvent>)
        ensures
            self.run(events).tick_rate() == self.tick_rate(),
            self.run(events).last_sample() >= self.last_sample(),
            self.quitting() ==> self.run(events).quitting(),
        decreases events.len(),
    {
        if events.len() > 0 {
            self.lemma_step_basics(events[0]);
            self.step(events[0]).lemma_run_basics(events.skip(1));
        }
    }

    /// A quit request is final: once iteration `k` observes a quit input (or
    /// the loop is already quitting by then), no iteration at or after `k`
    /// directs a sample or a render.
    pub proof fn lemma_quit_stops_loop(self, events: Seq<LoopEvent>, k: int, j: int)
        requires
            0 <= k <= j < events.len(),
            self.run(events.take(k)).quitting() || quit_requested(events[k].input),
        ensures
            !self.run(events.take(j)).step_directive(events[j]).sample,
            !self.run(events.take(j)).step_directive(events[j]).render,
            self.run(events.take(j + 1)).quitting(),
        decreases j - k,
    {
        let at_k = self.run(events.take(k));
        assert(events.take(k + 1) =~= events.take(k).push(events[k]));
        lemma_run_push(self, events.take(k), events[k]);
        if j == k {
            at_k.lemma_step_basics(events[k]);
        } else {
            at_k.lemma_step_basics(events[k]);
            assert(self.run(events.take(k + 1)).quitting());
            self.lemma_quit_stops_loop(events, k + 1, j);
        }
    }

    /// A due sample is never skipped: an iteration that is not stopping the
    /// loop directs a sample exactly when at least one tick has elapsed
    /// since the last sample was taken.
    pub proof fn lemma_due_sample_taken(self, events: Seq<LoopEvent>, k: int)
        requires
            0 <= k < events.len(),
            !self.run(events.take(k)).quitting(),
            !quit_requested(events[k].input),
        ensures
            self.run(events.take(k)).step_directive(events[k]).sample <==> self.run(
                events.take(k),
            ).sample_due(events[k].now_ms),
    {
    }

    /// Sampling cadence: any two iterations that both direct a sample read
    /// clocks at least one tick apart — the loop samples at most once per
    /// tick window, however often it iterates.
    pub proof fn lemma_sample_spacing(self, events: Seq<LoopEvent>, k: int, j: int)
        requires
            0 <= k < j < events.len(),
            self.run(events.take(k)).step_directive(events[k]).sample,
            self.run(events.take(j)).step_directive(events[j]).sample,
        ensures
            events[j].now_ms >= events[k].now_ms + self.tick_rate(),
    {
        let at_k = self.run(events.take(k));
        let at_j = self.run(events.take(j));
        at_k.lemma_step_basics(events[k]);
        at_j.lemma_step_basics(events[j]);
        assert(events.take(k + 1) =~= events.take(k).push(events[k]));
        lemma_run_push(self, events.take(k), events[k]);
        let after_k = self.run(events.take(k + 1));
        assert(after_k.last_sample() == events[k].now_ms);
        assert(events.take(j) =~= events.take(k + 1) + events.take(j).skip(k + 1));
        assert(events.take(j).skip(k + 1) =~= events.subrange(k + 1, j));
        lemma_run_append(self, events.take(k + 1), events.subrange(k + 1, j));
        after_k.lemma_run_basics(events.subrange(k + 1, j));
        self.lemma_run_basics(events.take(k));
        self.lemma_run_basics(events.take(j));
    }
}

/// Running one more event after a run is one more step.
proof fn lemma_run_push(s: EventLoop, events: Seq<LoopEvent>, e: LoopEvent)
    ensures
        s.run(events.push(e)) == s.run(events).step(e),
    decreases events.len(),
{
    if events.len() == 0 {
        assert(events.push(e)[0] == e);
        assert(events.push(e).skip(1) =~= Seq::<LoopEvent>::empty());
        assert(s.run(events.push(e)) == s.step(e).run(Seq::<LoopEvent>::empty()));
        assert(s.step(e).run(Seq::<LoopEvent>::empty()) == s.step(e));
        assert(s.run(events) == s);
    } else {
        assert(events.push(e)[0] == events[0]);
        assert(events.push(e).skip(1) =~= events.skip(1).push(e));
        assert(s.run(events.push(e)) == s.step(events[0]).run(events.skip(1).push(e)));
        lemma_run_push(s.step(events[0]), events.skip(1), e);
        assert(s.run(events) == s.step(events[0]).run(events.skip(1)));
    }
}

/// Running a concatenation is running both halves in order.
proof fn lemma_run_append(s: EventLoop, first: Seq<LoopEvent>, second: Seq<LoopEvent>)
    ensures
        s.run(first + second) == s.run(first).run(second),
    decreases first.len(),
{
    if first.len() == 0 {
        assert(first + second =~= second);
    } else {
        assert((first + second)[0] == first[0]);
        assert((first + second).skip(1) =~= first.skip(1) + second);
        lemma_run_append(s.step(first[0]), first.skip(1), second);
    }
}

} // verus!
