//! The pure decisions of the user interface: which control message a
//! button press sends, which label the start/stop button carries, and
//! which glyph a cell is drawn with.

use vstd::prelude::*;

verus! {

use crate::state::cell::CellState;

/// A control command for the simulation driver.
#[derive(Debug, Clone, Copy, PartialEq, Eq, Structural)]
pub enum ControlMessages {
    Reset,
    Start,
    Stop,
    Step,
}

/// The command the start/stop button sends: it stops a running
/// simulation and starts a stopped one.
pub fn start_stop_command(running: bool) -> (m: ControlMessages)
    ensures
        running ==> m is Stop,
        !running ==> m is Start,
{
    if running {
        ControlMessages::Stop
    } else {
        ControlMessages::Start
    }
}

/// The label of the start/stop button for the given run state.
pub fn start_button_label(running: bool) -> (label: &'static str)
    ensures
        running ==> label@ == "Stop"@,
        !running ==> label@ == "Start"@,
{
    if running {
        "Stop"
    } else {
        "Start"
    }
}

/// The glyph a cell is drawn with, from its current and its previous
/// state: a full block for a cell alive in both generations, shaded
/// blocks for a cell just born or just died, and a blank for a cell
/// dead in both.
pub fn transition_glyph(current: CellState, previous: CellState) -> (c: char)
    ensures
        current is Alive && previous is Alive ==> c == '█',
        current is Alive && previous is Dead ==> c == '▓',
        current is Dead && previous is Alive ==> c == '▒',
        current is Dead && previous is Dead ==> c == ' ',
{
    match (current, previous) {
        (CellState::Alive, CellState::Alive) => '█',
        (CellState::Alive, CellState::Dead) => '▓',
        (CellState::Dead, CellState::Alive) => '▒',
        (CellState::Dead, CellState::Dead) => ' ',
    }
}

/// The glyph of a cell drawn without transition information.
pub fn cell_glyph(state: CellState) -> (c: char)
    ensures
        state is Alive ==> c == 'A',
        state is Dead ==> c == '_',
{
    match state {
        CellState::Alive => 'A',
        CellState::Dead => '_',
    }
}

/// The run flag the interface remembers after sending a reset: cleared
/// when it believed the simulation was running, set otherwise.
pub fn reset_feedback_running(previous: Option<bool>) -> (next: bool)
    ensures
        next == !(previous == Some(true)),
{
    match previous {
        Some(true) => false,
        _ => true,
    }
}

} // verus!
