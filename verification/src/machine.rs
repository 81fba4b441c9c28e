//! The mathematical model of the sampling engine: the run state, the window and
//! the value on display, and how a toggle and a timer tick change them.

use vstd::prelude::*;
use crate::error::EngineError;
use crate::window::{Window, latest, sum, lemma_mean_fits, lemma_push_is_queue, lemma_sliding_window};

verus! {

/// Whether the engine is taking samples.
#[derive(Clone, Copy, Debug, PartialEq, Eq, Structural)]
pub enum RunState {
    /// Not sampling: timer ticks change nothing.
    Idle,
    /// Sampling: each timer tick with a reading feeds the smoother.
    Ticking,
}

impl RunState {
    /// The other state.
    pub open spec fn flipped(self) -> RunState {
        match self {
            RunState::Idle => RunState::Ticking,
            RunState::Ticking => RunState::Idle,
        }
    }
}

/// What the engine's owner tells it.
#[derive(Clone, Copy, Debug, PartialEq, Eq)]
pub enum Message {
    /// The start/stop control was pressed.
    Toggle,
    /// The timer fired, and this is what the metrics source gave.
    Tick(Result<u32, EngineError>),
}

/// The engine as a value.
pub ghost struct Engine {
    /// Whether samples are being taken.
    pub run: RunState,
    /// The smoother's window.
    pub window: Window,
    /// The smoothed value on display, if a sample was ever taken.
    pub smoothed: Option<u32>,
}

impl Engine {
    /// The engine as it starts: idle, a zero-seeded window of `size` slots,
    /// nothing on display.
    pub open spec fn initial(size: nat) -> Engine {
        Engine { run: RunState::Idle, window: Window::zeroed(size), smoothed: None }
    }

    /// The window is well formed and what is on display, if anything, is its mean.
    pub open spec fn wf(self) -> bool {
        &&& self.window.wf()
        &&& self.smoothed matches Some(shown) ==> shown == self.window.mean()
    }

    /// Whether a tick that brings `reading` feeds the smoother.
    pub open spec fn accepts(self, reading: Result<u32, EngineError>) -> bool {
        self.run is Ticking && reading is Ok
    }

    /// The engine after a toggle: only the run state changes.
    pub open spec fn toggle(self) -> Engine {
        Engine { run: self.run.flipped(), ..self }
    }

    /// The engine after `count` toggles.
    pub open spec fn toggles(self, count: nat) -> Engine
        decreases count,
    {
        if count == 0 {
            self
        } else {
            self.toggles((count - 1) as nat).toggle()
        }
    }

    /// The engine after a timer tick that brought `reading`. While sampling, a
    /// reading goes into the window and the new mean goes on display; a failed
    /// reading, or any tick while idle, changes nothing.
    pub open spec fn tick(self, reading: Result<u32, EngineError>) -> Engine {
        match reading {
            Ok(raw) if self.run is Ticking => Engine {
                run: self.run,
                window: self.window.push(raw),
                smoothed: Some(self.window.push(raw).mean() as u32),
            },
            _ => self,
        }
    }

    /// The engine after a run of timer ticks, oldest first.
    pub open spec fn ticks(self, readings: Seq<Result<u32, EngineError>>) -> Engine
        decreases readings.len(),
    {
        if readings.len() == 0 {
            self
        } else {
            self.ticks(readings.drop_last()).tick(readings.last())
        }
    }

    /// The engine after a message.
    pub open spec fn step(self, message: Message) -> Engine {
        match message {
            Message::Toggle => self.toggle(),
            Message::Tick(reading) => self.tick(reading),
        }
    }

    /// The value that a message puts on display: the new mean where a tick
    /// feeds the smoother, and none otherwise.
    pub open spec fn shows(self, message: Message) -> Option<u32> {
        match message {
            Message::Tick(reading) if self.accepts(reading) => self.tick(reading).smoothed,
            _ => None,
        }
    }

    /// The period of the timer that the engine wants, in milliseconds: none
    /// while idle.
    pub open spec fn timer(self) -> Option<u64> {
        match self.run {
            RunState::Idle => None,
            RunState::Ticking => Some(TICK_MILLIS),
        }
    }
}

/// The period of the sampling timer, in milliseconds.
pub const TICK_MILLIS: u64 = 500;

/// The number of slots of the window that the engine starts with by default.
pub const DEFAULT_WINDOW: usize = 5;

/// Two toggles undo each other.
pub proof fn lemma_toggle_twice(engine: Engine)
    ensures
        engine.toggle().toggle() == engine,
{
}

/// After any number of toggles the window and the display are as before, and
/// the run state is as before after an even number, the other one after an odd
/// number: from idle, an odd number of toggles ends in sampling and an even
/// number back in idle.
pub proof fn lemma_toggle_parity(engine: Engine, count: nat)
    ensures
        engine.toggles(count).window == engine.window,
        engine.toggles(count).smoothed == engine.smoothed,
        count % 2 == 0 ==> engine.toggles(count) == engine,
        count % 2 == 1 ==> engine.toggles(count) == engine.toggle(),
        engine.run is Idle ==> (engine.toggles(count).run is Ticking <==> count % 2 == 1),
    decreases count,
{
    if count > 0 {
        lemma_toggle_parity(engine, (count - 1) as nat);
    }
}

/// While the engine is idle, any run of timer ticks, whatever they bring,
/// leaves it as it was.
pub proof fn lemma_idle_ticks_change_nothing(
    engine: Engine,
    readings: Seq<Result<u32, EngineError>>,
)
    requires
        engine.run is Idle,
    ensures
        engine.ticks(readings) == engine,
    decreases readings.len(),
{
    if readings.len() > 0 {
        lemma_idle_ticks_change_nothing(engine, readings.drop_last());
    }
}

/// A tick whose reading failed leaves the engine as it was, so the next tick
/// that brings a reading does what it would have done without the failure.
pub proof fn lemma_failed_reading_is_skipped(engine: Engine, failure: EngineError, raw: u32)
    ensures
        engine.tick(Err(failure)) == engine,
        engine.tick(Err(failure)).tick(Ok(raw)) == engine.tick(Ok(raw)),
{
}

/// The engine starts well formed.
pub proof fn lemma_initial_wf(size: nat)
    requires
        size >= 1,
    ensures
        Engine::initial(size).wf(),
{
}

/// Toggles and ticks keep a well-formed engine well formed: whatever is on
/// display is the mean of the window.
pub proof fn lemma_steps_keep_wf(engine: Engine, reading: Result<u32, EngineError>)
    requires
        engine.wf(),
    ensures
        engine.toggle().wf(),
        engine.tick(reading).wf(),
{
    if let Ok(raw) = reading {
        lemma_push_is_queue(engine.window, raw);
        lemma_mean_fits(engine.window.push(raw));
    }
}

/// The readings of a run of ticks of which none failed.
pub open spec fn readings_of(samples: Seq<u32>) -> Seq<Result<u32, EngineError>> {
    Seq::new(samples.len(), |i: int| Ok(samples[i]))
}

/// While the engine is sampling, a run of ticks of which none failed feeds its
/// samples to the window in order and leaves the window's mean on display.
pub proof fn lemma_sampling_feeds_window(engine: Engine, samples: Seq<u32>)
    requires
        engine.run is Ticking,
    ensures
        engine.ticks(readings_of(samples)).run is Ticking,
        engine.ticks(readings_of(samples)).window == engine.window.feed(samples),
        samples.len() > 0 ==> engine.ticks(readings_of(samples)).smoothed == Some(
            engine.window.feed(samples).mean() as u32,
        ),
    decreases samples.len(),
{
    if samples.len() > 0 {
        lemma_sampling_feeds_window(engine, samples.drop_last());
        assert(readings_of(samples).drop_last() =~= readings_of(samples.drop_last()));
        assert(readings_of(samples).last() == Ok::<u32, EngineError>(samples.last()));
    }
}

/// While the engine is sampling, once it has taken at least as many samples as
/// the window has slots, the value on display is the mean of the last samples
/// taken, one per slot.
pub proof fn lemma_display_is_sliding_mean(engine: Engine, samples: Seq<u32>)
    requires
        engine.window.wf(),
        engine.run is Ticking,
        samples.len() >= engine.window.size(),
    ensures
        engine.ticks(readings_of(samples)).smoothed == Some(
            (sum(latest(samples, engine.window.size())) / (engine.window.size() as int)) as u32,
        ),
{
    lemma_sampling_feeds_window(engine, samples);
    lemma_sliding_window(engine.window, samples);
}

} // verus!
