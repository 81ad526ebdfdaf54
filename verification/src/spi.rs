//! The generation loop's state and its per-cycle decision: drain pending
//! commands, adopt the newest one, and turn the current mode into a sink
//! action — sleep while paused, otherwise a quantized sample write.
//!
//! The loop thread itself — the clock, the sleep, and the hardware write —
//! lives outside this crate; `step` is the whole of each cycle's logic.

use std::sync::mpsc::{Receiver, Sender};
use vstd::prelude::*;

use crate::channel::{new_channel, try_recv_message};
use crate::signal::{quantize, quantize_of, sample, sample_of};
use crate::types::{command_state, AppState, ControllerMessage};

verus! {

/// The most commands one cycle drains; later ones wait for the next cycle.
pub const DRAIN_BUDGET: usize = 4096;

/// What a cycle asks of the caller: rest for a short interval, or write one
/// quantized value to the sink.
#[derive(Clone, Copy, Debug, PartialEq, Eq, Structural)]
pub enum SinkAction {
    Sleep,
    Write(u8),
}

/// The action a mode calls for at a given elapsed time.
pub open spec fn decide_of(state: AppState, elapsed_micros: int) -> SinkAction {
    match state {
        AppState::Paused => SinkAction::Sleep,
        _ => SinkAction::Write(quantize_of(sample_of(state, elapsed_micros)) as u8),
    }
}

/// The generation loop's own state: the receiving end of the command
/// channel and the mode currently adopted. The loop's start instant, from
/// which elapsed time is measured, stays with the thread that runs it.
pub struct Spi {
    rx: Receiver<ControllerMessage>,
    state: AppState,
}

/// The mode left standing after a drained batch: the newest command wins,
/// and an empty batch leaves the current mode in place. Commands before the
/// last are adopted and immediately overwritten, never observed downstream.
pub fn adopt_latest(current: AppState, batch: &Vec<ControllerMessage>) -> (adopted: AppState)
    ensures
        batch@.len() == 0 ==> adopted == current,
        batch@.len() > 0 ==> adopted == command_state(batch@.last()),
{
    let mut adopted = current;
    let mut i: usize = 0;
    while i < batch.len()
        invariant
            i <= batch@.len(),
            i == 0 ==> adopted == current,
            i > 0 ==> adopted == command_state(batch@[i as int - 1]),
        decreases batch@.len() - i,
    {
        match batch[i] {
            ControllerMessage::Change(state) => {
                adopted = state;
            },
        }
        i = i + 1;
    }
    adopted
}

/// Turns the current mode into this cycle's sink action: paused modes rest,
/// the others sample the signal model and quantize for the sink.
pub fn decide(state: AppState, elapsed_micros: u64) -> (action: SinkAction)
    ensures
        action == decide_of(state, elapsed_micros as int),
{
    match state {
        AppState::Paused => SinkAction::Sleep,
        _ => SinkAction::Write(quantize(sample(state, elapsed_micros))),
    }
}

impl Spi {
    /// The mode the loop is currently generating.
    pub closed spec fn mode(self) -> AppState {
        self.state
    }

    /// Reads the currently adopted mode.
    pub fn current_mode(&self) -> (state: AppState)
        ensures
            state == self.mode(),
    {
        self.state
    }

    /// Builds the loop state, initially paused, and the sender the front
    /// end keeps. The hardware sink is brought up by the caller.
    pub fn new() -> (r: (Spi, Sender<ControllerMessage>))
        ensures
            r.0.mode() == AppState::Paused,
    {
        let (tx, rx) = new_channel();
        (Spi { rx, state: AppState::Paused }, tx)
    }

    /// Pops every command currently queued, in arrival order, up to the
    /// cycle's drain budget.
    fn drain_pending(&self) -> (batch: Vec<ControllerMessage>)
    {
        let mut batch: Vec<ControllerMessage> = Vec::new();
        let mut more = true;
        let mut i: usize = 0;
        while more && i < DRAIN_BUDGET
            invariant
                i <= DRAIN_BUDGET,
            decreases DRAIN_BUDGET - i,
        {
            match try_recv_message(&self.rx) {
                Some(message) => batch.push(message),
                None => more = false,
            }
            i = i + 1;
        }
        batch
    }

    /// One cycle of the generation loop: drain pending commands, keep the
    /// newest mode — transitions are driven by commands alone — and return
    /// the action the adopted mode calls for at the given elapsed time.
    pub fn step(&mut self, elapsed_micros: u64) -> (action: SinkAction)
        ensures
            action == decide_of(final(self).mode(), elapsed_micros as int),
    {
        let batch = self.drain_pending();
        self.state = adopt_latest(self.state, &batch);
        decide(self.state, elapsed_micros)
    }
}

} // verus!
