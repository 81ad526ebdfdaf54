//! The operator-facing state machine: which mode tab is selected, the
//! slider position, and the last channel error, together with the mapping
//! from those to the command sent to the generation loop.
//!
//! Rendering and input belong to the front end outside this crate. The
//! slider-to-frequency curve is exponential and evaluated by the front end;
//! its result arrives here as a frequency in millihertz.

use std::sync::mpsc::Sender;
use vstd::prelude::*;

use crate::channel::send_command;
use crate::types::{AppState, ControlError, ControllerMessage, FULL_LEVEL};

verus! {

/// The mode tab the operator has selected.
#[derive(Clone, Copy, Debug, PartialEq, Eq, Structural)]
pub enum UiState {
    Paused,
    Constant,
    Circular,
}

/// An operator event: a tab change, a slider move, or dismissing the
/// currently shown error.
#[derive(Clone, Copy, Debug, PartialEq, Eq, Structural)]
pub enum UiMessage {
    ChangeState(UiState),
    SetValue(u16),
    ClearError,
}

/// The slider's position as a level: the full slider range maps linearly
/// onto [0, full scale], truncating.
pub open spec fn slider_level_of(value: int) -> int {
    value * 1_000_000 / 65535
}

/// The mode a selection asks for: paused as is, a constant level from the
/// slider, or an oscillation at the front end's frequency — rejected here,
/// at the boundary that constructs the mode, when it is not positive.
pub open spec fn target_state_of(state: UiState, value: int, freq_millihz: int) -> Result<
    AppState,
    ControlError,
> {
    match state {
        UiState::Paused => Ok(AppState::Paused),
        UiState::Constant => Ok(AppState::Constant(slider_level_of(value) as u32)),
        UiState::Circular => if freq_millihz >= 1 {
            Ok(AppState::Circular(freq_millihz as u32))
        } else {
            Err(ControlError::InvalidFrequency)
        },
    }
}

/// Computes the mode a selection asks for, exactly as `target_state_of`
/// says; every mode it yields is well formed.
pub fn target_state(state: UiState, value: u16, freq_millihz: u32) -> (r: Result<
    AppState,
    ControlError,
>)
    ensures
        r == target_state_of(state, value as int, freq_millihz as int),
        r matches Ok(s) ==> s.well_formed(),
{
    match state {
        UiState::Paused => Ok(AppState::Paused),
        UiState::Constant => {
            let level: u32 = ((value as u64) * 1_000_000 / 65535) as u32;
            proof {
                vstd::arithmetic::div_mod::lemma_div_is_ordered(
                    (value as int) * 1_000_000,
                    65535int * 1_000_000,
                    65535int,
                );
                vstd::arithmetic::div_mod::lemma_div_multiples_vanish(1_000_000int, 65535int);
            }
            Ok(AppState::Constant(level))
        },
        UiState::Circular => {
            if freq_millihz >= 1 {
                Ok(AppState::Circular(freq_millihz))
            } else {
                Err(ControlError::InvalidFrequency)
            }
        },
    }
}

/// The operator-facing state: the sender half of the command channel, the
/// selected tab, the slider position, and the error on show, if any.
pub struct Ui {
    tx: Sender<ControllerMessage>,
    state: UiState,
    value: u16,
    current_error: Option<ControlError>,
}

impl Ui {
    /// The selected tab.
    pub closed spec fn state_spec(self) -> UiState {
        self.state
    }

    /// The slider position.
    pub closed spec fn value_spec(self) -> u16 {
        self.value
    }

    /// The error currently on show.
    pub closed spec fn error_spec(self) -> Option<ControlError> {
        self.current_error
    }

    /// Reads the selected tab.
    pub fn state(&self) -> (state: UiState)
        ensures
            state == self.state_spec(),
    {
        self.state
    }

    /// Reads the slider position.
    pub fn value(&self) -> (value: u16)
        ensures
            value == self.value_spec(),
    {
        self.value
    }

    /// Reads the error currently on show.
    pub fn current_error(&self) -> (error: Option<ControlError>)
        ensures
            error == self.error_spec(),
    {
        self.current_error
    }

    /// Builds the interface state: paused, slider at zero, no error.
    pub fn new(tx: Sender<ControllerMessage>) -> (ui: Ui)
        ensures
            ui.state_spec() == UiState::Paused,
            ui.value_spec() == 0,
            ui.error_spec() is None,
    {
        Ui { tx, state: UiState::Paused, value: 0, current_error: None }
    }

    /// Sends the mode the current selection asks for to the generation
    /// loop. A rejected parameter becomes the error on show, exactly; with
    /// an accepted mode the shown error changes only when the channel is
    /// dead, and a successful send leaves it as it was — which of the two
    /// happened rests on the live channel, outside the contract's reach.
    fn send_state(&mut self, freq_millihz: u32)
        ensures
            final(self).state_spec() == old(self).state_spec(),
            final(self).value_spec() == old(self).value_spec(),
            target_state_of(
                old(self).state_spec(),
                old(self).value_spec() as int,
                freq_millihz as int,
            ) matches Err(e) ==> final(self).error_spec() == Some(e),
            target_state_of(
                old(self).state_spec(),
                old(self).value_spec() as int,
                freq_millihz as int,
            ) matches Ok(s) ==> (final(self).error_spec() == old(self).error_spec()
                || final(self).error_spec() == Some(ControlError::Disconnected)),
    {
        match target_state(self.state, self.value, freq_millihz) {
            Ok(new_state) => {
                match send_command(&self.tx, new_state) {
                    Ok(()) => {},
                    Err(e) => {
                        self.current_error = Some(e);
                    },
                }
            },
            Err(e) => {
                self.current_error = Some(e);
            },
        }
    }

    /// Applies one operator event: tab changes and slider moves update the
    /// selection and send the resulting mode at once; dismissing clears the
    /// error on show. `freq_millihz` is the front end's frequency for the
    /// slider position the event leaves in place. For the sending events,
    /// a rejected parameter is stored as the error exactly, and with an
    /// accepted mode the error changes only when the channel is dead.
    pub fn update(&mut self, message: UiMessage, freq_millihz: u32)
        ensures
            match message {
                UiMessage::ChangeState(s) => final(self).state_spec() == s
                    && final(self).value_spec() == old(self).value_spec()
                    && (target_state_of(s, old(self).value_spec() as int, freq_millihz as int)
                        matches Err(e) ==> final(self).error_spec() == Some(e))
                    && (target_state_of(s, old(self).value_spec() as int, freq_millihz as int)
                        matches Ok(m) ==> (final(self).error_spec() == old(self).error_spec()
                            || final(self).error_spec() == Some(ControlError::Disconnected))),
                UiMessage::SetValue(v) => final(self).value_spec() == v
                    && final(self).state_spec() == old(self).state_spec()
                    && (target_state_of(old(self).state_spec(), v as int, freq_millihz as int)
                        matches Err(e) ==> final(self).error_spec() == Some(e))
                    && (target_state_of(old(self).state_spec(), v as int, freq_millihz as int)
                        matches Ok(m) ==> (final(self).error_spec() == old(self).error_spec()
                            || final(self).error_spec() == Some(ControlError::Disconnected))),
                UiMessage::ClearError => final(self).error_spec() is None
                    && final(self).state_spec() == old(self).state_spec()
                    && final(self).value_spec() == old(self).value_spec(),
            },
    {
        match message {
            UiMessage::ChangeState(new_state) => {
                self.state = new_state;
                self.send_state(freq_millihz);
            },
            UiMessage::ClearError => {
                self.current_error = None;
            },
            UiMessage::SetValue(v) => {
                self.value = v;
                self.send_state(freq_millihz);
            },
        }
    }
}

} // verus!
