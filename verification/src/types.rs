//! The mode state machine carried from the front end to the generation loop,
//! and the errors the control path can report.

use vstd::prelude::*;

verus! {

/// Full scale of a level: levels are fractions of the output range,
/// measured in millionths, so `FULL_LEVEL` stands for 1.0.
pub const FULL_LEVEL: u32 = 1_000_000;

/// The midpoint of the output range, standing for 0.5.
pub const HALF_LEVEL: u32 = 500_000;

/// The generation mode the operator has asked for.
///
/// `Constant` holds a level in millionths of full scale; `Circular` holds a
/// sine-wave frequency in millihertz.
#[derive(Clone, Copy, Debug, PartialEq, Eq, Structural)]
pub enum AppState {
    Paused,
    Constant(u32),
    Circular(u32),
}

/// A command in transit from the front end to the generation loop.
#[derive(Clone, Copy, Debug, PartialEq, Eq, Structural)]
pub enum ControllerMessage {
    Change(AppState),
}

/// The errors the control path reports: a command sent after the consumer
/// is gone, or a mode parameter rejected at construction.
#[derive(Clone, Copy, Debug, PartialEq, Eq, Structural)]
pub enum ControlError {
    Disconnected,
    InvalidLevel,
    InvalidFrequency,
}

impl AppState {
    /// A mode is well formed when its parameter is in range: a level of at
    /// most full scale, and a strictly positive frequency.
    pub open spec fn well_formed(self) -> bool {
        match self {
            AppState::Paused => true,
            AppState::Constant(level) => level <= FULL_LEVEL,
            AppState::Circular(freq_millihz) => freq_millihz >= 1,
        }
    }

    /// Builds a constant mode, rejecting a level above full scale.
    pub fn constant(level: u32) -> (r: Result<AppState, ControlError>)
        ensures
            r == if level <= FULL_LEVEL {
                Result::<AppState, ControlError>::Ok(AppState::Constant(level))
            } else {
                Result::<AppState, ControlError>::Err(ControlError::InvalidLevel)
            },
            r matches Ok(s) ==> s.well_formed(),
    {
        if level <= FULL_LEVEL {
            Ok(AppState::Constant(level))
        } else {
            Err(ControlError::InvalidLevel)
        }
    }

    /// Builds an oscillating mode, rejecting a frequency of zero.
    pub fn circular(freq_millihz: u32) -> (r: Result<AppState, ControlError>)
        ensures
            r == if freq_millihz >= 1 {
                Result::<AppState, ControlError>::Ok(AppState::Circular(freq_millihz))
            } else {
                Result::<AppState, ControlError>::Err(ControlError::InvalidFrequency)
            },
            r matches Ok(s) ==> s.well_formed(),
    {
        if freq_millihz >= 1 {
            Ok(AppState::Circular(freq_millihz))
        } else {
            Err(ControlError::InvalidFrequency)
        }
    }
}

/// The mode a command asks the loop to adopt.
pub open spec fn command_state(message: ControllerMessage) -> AppState {
    match message {
        ControllerMessage::Change(state) => state,
    }
}

} // verus!
