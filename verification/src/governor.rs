//! The governor of the event loop: it bounds the rate at which batches of
//! input events are handed out, and has the caller block while there is
//! nothing to do.
//!
//! The governor decides and the caller acts. The caller reports what
//! happened as a [`Signal`]; the governor answers with the [`Action`] to
//! perform next. Clock readings are nanoseconds on a monotonic clock,
//! counted from the moment the governor was made.

use std::time::Instant;
use vstd::prelude::*;

verus! {

/// The least time between two batches, in nanoseconds (16 ms).
pub const FRAME_INTERVAL: u64 = 16_000_000;

/// What the caller reports to the governor.
#[derive(Clone, Copy, Debug, PartialEq, Eq, Structural)]
pub enum Signal {
    /// A new iteration begins.
    Entered,
    /// The bounded sleep is over.
    Rested,
    /// The queue was read, without blocking or after the blocking wait, and
    /// the batch now holds `count` events.
    Collected { count: usize },
}

/// What the governor asks the caller to do next.
#[derive(Clone, Copy, Debug, PartialEq, Eq, Structural)]
pub enum Action {
    /// Suspend the thread for `nanos` nanoseconds, then report `Rested`.
    Sleep { nanos: u64 },
    /// Drain the queue without blocking, then report `Collected`.
    Poll,
    /// Block until an event arrives, then report `Collected`.
    Block,
    /// Hand the collected batch to the main loop.
    Yield,
}

/// The governor's state as contracts see it.
pub struct Timing {
    /// A redraw is owed even if no input arrives.
    pub pending: bool,
    /// The clock reading at which the last batch was handed out.
    pub last_update: u128,
}

/// The time still to wait at clock reading `now` before the next poll: what
/// is missing to a full frame interval since `last_update`. A clock that ran
/// backwards gives no wait.
pub open spec fn frame_rest(last_update: u128, now: u128) -> u64 {
    if now < last_update {
        0
    } else if now - last_update < FRAME_INTERVAL {
        (FRAME_INTERVAL - (now - last_update)) as u64
    } else {
        0
    }
}

/// Whether the caller has to block with `count` events in the batch: only
/// with none, and no redraw owed.
pub open spec fn idle(state: Timing, count: usize) -> bool {
    count == 0 && !state.pending
}

/// The governor's rule: the state and the action that follow a signal taken
/// at clock reading `now`. Only handing out a batch changes the state: it
/// clears the owed redraw and records the reading.
pub open spec fn step(state: Timing, signal: Signal, now: u128) -> (Timing, Action) {
    match signal {
        Signal::Entered => if frame_rest(state.last_update, now) > 0 {
            (state, Action::Sleep { nanos: frame_rest(state.last_update, now) })
        } else {
            (state, Action::Poll)
        },
        Signal::Rested => (state, Action::Poll),
        Signal::Collected { count } => if idle(state, count) {
            (state, Action::Block)
        } else {
            (Timing { pending: false, last_update: now }, Action::Yield)
        },
    }
}

/// Paces the event loop.
#[derive(Debug)]
pub struct EventLoop {
    ui_needs_update: bool,
    origin: Instant,
    last_update: u128,
}

impl View for EventLoop {
    type V = Timing;

    closed spec fn view(&self) -> Timing {
        Timing { pending: self.ui_needs_update, last_update: self.last_update }
    }
}

impl EventLoop {
    /// A governor whose clock starts now, with a first redraw owed.
    pub fn new() -> (governor: EventLoop)
        ensures
            governor@ == (Timing { pending: true, last_update: 0 }),
    {
        EventLoop { origin: Instant::now(), last_update: 0, ui_needs_update: true }
    }

    /// Reads the governor's clock.
    fn clock(&self) -> (now: u128) {
        self.origin.elapsed().as_nanos()
    }

    /// The time still to wait at clock reading `now` before the next poll.
    pub fn rest(&self, now: u128) -> (nanos: u64)
        ensures
            nanos == frame_rest(self@.last_update, now),
            nanos <= FRAME_INTERVAL,
    {
        if now < self.last_update {
            0
        } else {
            let elapsed: u128 = now - self.last_update;
            if elapsed < FRAME_INTERVAL as u128 {
                FRAME_INTERVAL - elapsed as u64
            } else {
                0
            }
        }
    }

    /// Whether the caller has to block with `count` events in the batch.
    pub fn must_block(&self, count: usize) -> (block: bool)
        ensures
            block == idle(self@, count),
    {
        count == 0 && !self.ui_needs_update
    }

    /// Takes a signal at clock reading `now` and answers with the next
    /// action, as the governor's rule has it.
    pub fn advance(&mut self, signal: Signal, now: u128) -> (action: Action)
        ensures
            (final(self)@, action) == step(old(self)@, signal, now),
    {
        match signal {
            Signal::Entered => {
                let nanos: u64 = self.rest(now);
                if nanos > 0 {
                    Action::Sleep { nanos }
                } else {
                    Action::Poll
                }
            },
            Signal::Rested => Action::Poll,
            Signal::Collected { count } => {
                if self.must_block(count) {
                    Action::Block
                } else {
                    self.ui_needs_update = false;
                    self.last_update = now;
                    Action::Yield
                }
            },
        }
    }

    /// Takes a signal at the present reading of the governor's clock and
    /// answers with the next action. Whatever the clock says, the answer
    /// follows the governor's rule for that reading.
    pub fn next(&mut self, signal: Signal) -> (action: Action)
        ensures
            exists|now: u128| (final(self)@, action) == #[trigger] step(old(self)@, signal, now),
            signal == Signal::Rested ==> action == Action::Poll && final(self)@ == old(self)@,
            signal is Collected ==> action == (if idle(old(self)@, signal->count) {
                Action::Block
            } else {
                Action::Yield
            }),
            action != Action::Yield ==> final(self)@ == old(self)@,
            action == Action::Yield ==> !final(self)@.pending,
            action is Sleep ==> 0 < action->nanos <= FRAME_INTERVAL,
    {
        let now: u128 = self.clock();
        self.advance(signal, now)
    }

    /// Records that a redraw is owed whether or not input arrives.
    pub fn needs_update(&mut self)
        ensures
            final(self)@ == (Timing { pending: true, last_update: old(self)@.last_update }),
    {
        self.ui_needs_update = true;
    }

    /// Whether a redraw is owed.
    pub fn ui_needs_update(&self) -> (pending: bool)
        ensures
            pending == self@.pending,
    {
        self.ui_needs_update
    }

    /// The clock reading at which the last batch was handed out.
    pub fn last_update(&self) -> (reading: u128)
        ensures
            reading == self@.last_update,
    {
        self.last_update
    }
}

/// Burst suppression: on a clock that does not run backwards, the poll never
/// starts before a full frame interval has passed since the last batch.
pub proof fn rest_fills_the_interval(last_update: u128, now: u128)
    requires
        last_update <= now,
    ensures
        now + frame_rest(last_update, now) >= last_update + FRAME_INTERVAL,
        frame_rest(last_update, now) > 0 ==> now + frame_rest(last_update, now) == last_update
            + FRAME_INTERVAL,
{
}

/// The time that the governor has the caller sleep on entering at `now`.
pub open spec fn sleep_asked(state: Timing, now: u128) -> int {
    match step(state, Signal::Entered, now).1 {
        Action::Sleep { nanos } => nanos as int,
        _ => 0,
    }
}

/// Burst suppression, over the governor's rule: where an iteration is
/// entered at a reading `now` not before the last batch, and events are
/// collected at a reading `later` that the sleep asked for has gone by, the
/// batch handed out then is stamped at least a full frame interval after the
/// last one, however many events are waiting.
pub proof fn batches_are_an_interval_apart(state: Timing, now: u128, later: u128, count: usize)
    requires
        state.last_update <= now,
        later >= now + sleep_asked(state, now),
        count > 0,
    ensures
        step(state, Signal::Entered, now).0 == state,
        step(state, Signal::Collected { count }, later).1 == Action::Yield,
        step(state, Signal::Collected { count }, later).0.last_update >= state.last_update
            + FRAME_INTERVAL,
{
}

/// With nothing to do the governor blocks: whenever the batch is empty and
/// no redraw is owed it asks for the blocking wait and leaves its state as
/// it is, so that a batch handed out with no redraw owed is never empty.
pub proof fn idle_governor_blocks(state: Timing, count: usize, now: u128)
    ensures
        idle(state, count) ==> step(state, Signal::Collected { count }, now) == (
            state,
            Action::Block,
        ),
        !state.pending && step(state, Signal::Collected { count }, now).1 == Action::Yield
            ==> count > 0,
{
}

} // verus!
