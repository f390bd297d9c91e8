//! The transition table: for every state and every event, the state that
//! follows and the entry action that runs.

use vstd::prelude::*;
use crate::types::{Action, Event, State};

verus! {

/// What a state's handler answers to an event.
#[derive(Clone, Copy, Debug, PartialEq, Eq, Structural)]
pub enum Outcome {
    /// The state has a rule for the event: move to the given state.
    Transition(State),
    /// The state has no rule for the event: ask the shared default handler.
    Super,
    /// The event is consumed and the state stays as it is.
    Handled,
}

/// One cell of the table.
#[derive(Clone, Copy, Debug, PartialEq, Eq, Structural)]
pub struct Transition {
    /// The state after the event.
    pub next: State,
    /// The entry action of `next`, where the event leads into it from
    /// another state.
    pub action: Option<Action>,
}

/// Whether state `s` has a rule of its own for event `e`. Where it has none,
/// the shared default rule applies.
pub open spec fn recognizes(s: State, e: Event) -> bool {
    match s {
        State::On => true,
        State::Scanning => e is SsidFound || e is DeviceMoving,
        State::Connecting => true,
        State::Connected => e is ConnectionLost,
        State::LostConnection => e is DeviceMoving || e is DeviceStationary,
        State::Off => e is DeviceStationary,
    }
}

/// The state that follows `s` when `e` is consumed.
pub open spec fn next_state(s: State, e: Event) -> State {
    match s {
        State::On => State::Scanning,
        State::Scanning => if e is SsidFound || e is DeviceMoving {
            State::Connecting
        } else {
            State::Scanning
        },
        State::Connecting => if e is ConnectionSucceeded {
            State::Connected
        } else {
            State::Scanning
        },
        State::Connected => if e is ConnectionLost {
            State::LostConnection
        } else {
            State::Connected
        },
        State::LostConnection => if e is DeviceMoving {
            State::Off
        } else if e is DeviceStationary {
            State::Scanning
        } else {
            State::LostConnection
        },
        State::Off => if e is DeviceStationary {
            State::On
        } else {
            State::Off
        },
    }
}

/// The entry action that runs when `s` consumes `e`: that of the state
/// entered, and none where the state stays the same.
pub open spec fn action_of(s: State, e: Event) -> Option<Action> {
    if next_state(s, e) == s {
        None
    } else {
        next_state(s, e).spec_entry_action()
    }
}

/// The cell of the table for `s` and `e`.
pub open spec fn cell(s: State, e: Event) -> Transition {
    Transition { next: next_state(s, e), action: action_of(s, e) }
}

/// What the handler of `s` answers to `e`.
pub open spec fn handler_outcome(s: State, e: Event) -> Outcome {
    if recognizes(s, e) {
        Outcome::Transition(next_state(s, e))
    } else {
        Outcome::Super
    }
}

/// The states that the table names as reachable from `s` in one step.
pub open spec fn successors(s: State) -> Set<State> {
    match s {
        State::On => set![State::Scanning],
        State::Scanning => set![State::Scanning, State::Connecting],
        State::Connecting => set![State::Connected, State::Scanning],
        State::Connected => set![State::Connected, State::LostConnection],
        State::LostConnection => set![State::LostConnection, State::Off, State::Scanning],
        State::Off => set![State::Off, State::On],
    }
}

/// A radio outcome that reaches a state which was not waiting for it: the
/// radio answered a command that was never issued, or answered twice.
pub open spec fn violates_protocol(s: State, e: Event) -> bool {
    e.is_radio_outcome() && !s.awaits(e)
}

} // verus!
