//! Drives an analog output over a serial peripheral bus: a command channel
//! carries mode changes from an operator-facing front end to a generation
//! loop, which samples a waveform at a fixed cadence and hands quantized
//! values to the hardware sink.
//!
//! Levels are fixed-point fractions in millionths of full scale, frequencies
//! are in millihertz, and elapsed time is in microseconds, so every step of
//! the signal path is plain integer arithmetic with a proved contract.

pub mod channel;
pub mod signal;
pub mod spi;
pub mod types;
pub mod ui;

pub use channel::send_command;
pub use signal::{quantize, sample};
pub use spi::{SinkAction, Spi};
pub use types::{AppState, ControlError, ControllerMessage, FULL_LEVEL, HALF_LEVEL};
pub use ui::{Ui, UiMessage, UiState};
