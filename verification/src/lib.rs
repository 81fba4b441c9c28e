//! A CPU-utilisation sampling engine: a start/stop state machine that feeds
//! periodic readings into a fixed-window moving average.
//!
//! The engine does no input or output of its own. Its owner runs a timer while
//! the engine asks for one, reads the aggregate CPU utilisation on each firing
//! and hands the reading in; the engine decides whether the reading counts and
//! keeps the smoothed value and the text to show for it.
//!
//! Utilisation is held as a whole number of hundredths of a percent, so that
//! `1234` stands for 12.34 %. Nothing is clamped: the source of the readings
//! answers for their range.
//!
//! Two choices are made where more than one behaviour would be defensible:
//!
//! - The window starts filled with zeros, and the mean is always taken over
//!   all of its slots. Until each slot has been written once, the smoothed
//!   value is therefore lower than the mean of the samples taken so far.
//! - Before the first sample has been taken there is no smoothed value at all,
//!   and the display shows `---`. A smoothed value of zero is shown as `0.00%`.
//!
//! The modules: [`window`] and [`machine`] hold the mathematical models and the
//! laws proved of them, [`smoother`] and [`sampler`] the executable engine,
//! [`display`] the text of the display, [`style`] the looks of the controls and
//! [`error`] the failures.

pub mod display;
pub mod error;
pub mod machine;
pub mod sampler;
pub mod smoother;
pub mod style;
pub mod window;
