//! The sampling engine: a start/stop switch in front of a smoother.
//!
//! The engine reads no metrics and keeps no timer. Its owner runs the timer
//! that `subscription` asks for, takes a reading of the aggregate CPU
//! utilisation on each firing, and hands it to `tick`; a press of the start/stop
//! control goes to `toggle`. Readings and smoothed values are in hundredths of
//! a percent.

use vstd::prelude::*;
use crate::display::{display_text, display_value};
use crate::error::EngineError;
use crate::machine::{Engine, Message, RunState, DEFAULT_WINDOW, TICK_MILLIS};
use crate::smoother::Smoother;

verus! {

/// The sampling engine.
#[derive(Debug)]
pub struct Sampler {
    state: RunState,
    smoother: Smoother,
    smoothed: Option<u32>,
}

impl View for Sampler {
    type V = Engine;

    closed spec fn view(&self) -> Engine {
        Engine { run: self.state, window: self.smoother@, smoothed: self.smoothed }
    }
}

impl Sampler {
    /// Makes an idle engine with a zero-seeded window of `window_size` slots
    /// and nothing on display. A window size of zero is refused.
    pub fn new(window_size: usize) -> (made: Result<Sampler, EngineError>)
        ensures
            window_size == 0 <==> made is Err,
            made matches Err(e) ==> e == EngineError::InvalidWindowSize,
            made matches Ok(sampler) ==> sampler@ == Engine::initial(window_size as nat),
    {
        match Smoother::new(window_size) {
            Ok(smoother) => Ok(Sampler { state: RunState::Idle, smoother, smoothed: None }),
            Err(e) => Err(e),
        }
    }

    /// Makes an idle engine with a window of the default size.
    pub fn with_default_window() -> (sampler: Sampler)
        ensures
            sampler@ == Engine::initial(DEFAULT_WINDOW as nat),
    {
        match Sampler::new(DEFAULT_WINDOW) {
            Ok(sampler) => sampler,
            Err(_) => vstd::pervasive::unreached(),
        }
    }

    /// Starts sampling if the engine is idle and stops it if it is sampling.
    /// The window and the display stay as they are.
    pub fn toggle(&mut self)
        ensures
            final(self)@ == old(self)@.toggle(),
    {
        self.state = match self.state {
            RunState::Idle => RunState::Ticking,
            RunState::Ticking => RunState::Idle,
        };
    }

    /// Takes one firing of the timer with the reading that came with it.
    /// While sampling, a reading is fed to the smoother and the new mean is put
    /// on display and returned. A failed reading is skipped, and so is any
    /// tick while idle: the engine stays as it was and nothing is returned.
    pub fn tick(&mut self, reading: Result<u32, EngineError>) -> (shown: Option<u32>)
        ensures
            final(self)@ == old(self)@.tick(reading),
            shown == old(self)@.shows(Message::Tick(reading)),
    {
        match (self.state, reading) {
            (RunState::Ticking, Ok(raw)) => {
                let mean = self.smoother.update(raw);
                self.smoothed = Some(mean);
                Some(mean)
            },
            _ => None,
        }
    }

    /// Takes one message: a toggle or a timer tick. Returns the value that the
    /// message put on display, if it put one there.
    pub fn update(&mut self, message: Message) -> (shown: Option<u32>)
        ensures
            final(self)@ == old(self)@.step(message),
            shown == old(self)@.shows(message),
    {
        match message {
            Message::Toggle => {
                self.toggle();
                None
            },
            Message::Tick(reading) => self.tick(reading),
        }
    }

    /// The period, in milliseconds, of the timer that the engine wants to be
    /// driven by: none while idle, so that no tick is made only to be dropped.
    pub fn subscription(&self) -> (period: Option<u64>)
        ensures
            period == self@.timer(),
    {
        match self.state {
            RunState::Idle => None,
            RunState::Ticking => Some(TICK_MILLIS),
        }
    }

    /// Whether the engine is idle or sampling.
    pub fn state(&self) -> (state: RunState)
        ensures
            state == self@.run,
    {
        self.state
    }

    /// The smoothed value on display, or none while no sample has been taken.
    pub fn smoothed_value(&self) -> (smoothed: Option<u32>)
        ensures
            smoothed == self@.smoothed,
    {
        self.smoothed
    }

    /// The smoother behind the engine.
    pub fn smoother(&self) -> (smoother: &Smoother)
        ensures
            smoother@ == self@.window,
    {
        &self.smoother
    }

    /// The text on display: the smoothed value as a percentage with two
    /// decimal places, or `---` while no sample has been taken.
    pub fn current_display_value(&self) -> (text: String)
        ensures
            text@ == display_text(self@.smoothed),
    {
        display_value(self.smoothed)
    }
}

} // verus!
