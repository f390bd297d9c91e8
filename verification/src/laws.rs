//! What holds of the table and of the machine as a whole.

use vstd::prelude::*;
use crate::machine::{after, command_of, MachineView};
use crate::table::{action_of, next_state, recognizes, successors, violates_protocol};
use crate::types::{Action, CommandView, Event, State};

verus! {

/// The table is total: whatever the state and the event, the step lands in
/// one of the states that the table names as a successor of the current one.
/// Where the state has no rule of its own for the event, the default rule
/// keeps the state and runs no action.
pub proof fn table_is_total(s: State, e: Event)
    ensures
        successors(s).contains(next_state(s, e)),
        !recognizes(s, e) ==> next_state(s, e) == s && action_of(s, e) is None,
{
}

/// The table names no successor in vain: each one is reached by some event.
pub proof fn successors_are_reached(s: State, t: State)
    requires
        successors(s).contains(t),
    ensures
        exists|e: Event| next_state(s, e) == t,
{
    let e = match (s, t) {
        (State::Scanning, State::Connecting) => Event::DeviceMoving,
        (State::Connecting, State::Connected) => Event::ConnectionSucceeded,
        (State::Connected, State::LostConnection) => Event::ConnectionLost,
        (State::LostConnection, State::Off) => Event::DeviceMoving,
        (State::LostConnection, State::Scanning) => Event::DeviceStationary,
        (State::Off, State::On) => Event::DeviceStationary,
        _ => Event::ScanRequested,
    };
    assert(next_state(s, e) == t);
}

/// An entry action runs only on a step into another state, and it is then
/// the action of the state entered: an event that leaves the machine where
/// it is issues no command.
pub proof fn command_only_on_entry(m: MachineView, e: Event)
    ensures
        after(m, e).state == m.state ==> command_of(m, e) is None,
        command_of(m, e) matches Some(c) ==> after(m, e).state != m.state
            && after(m, e).state.spec_entry_action() == Some(c.action()),
        command_of(m, e) is None <==> after(m, e).state == m.state
            || after(m, e).state.spec_entry_action() is None,
{
}

/// A connection attempt goes to the network that the scan found, with the
/// credentials that the machine was made with; no event changes those.
pub proof fn connect_uses_found_network(m: MachineView, found: Vec<u8>)
    requires
        m.state is Scanning,
    ensures
        command_of(m, Event::SsidFound(found)) == Some(
            CommandView::Connect { ssid: found@, credentials: m.credentials },
        ),
        after(m, Event::SsidFound(found)).ssid == found@,
{
}

/// An event delivered twice in a row never issues the same command twice.
/// In particular one scan result leads to at most one connection attempt.
/// Where the first delivery was a radio outcome that the state was waiting
/// for, the second is out of protocol or changes nothing and issues nothing.
pub proof fn duplicate_event_is_harmless(m: MachineView, e: Event)
    ensures
        !(command_of(m, e) matches Some(first) && command_of(after(m, e), e) matches Some(
            second,
        ) && first.action() == second.action()),
        !(action_of(m.state, e) == Some(Action::AttemptConnect) && action_of(
            after(m, e).state,
            e,
        ) == Some(Action::AttemptConnect)),
        m.state.awaits(e) ==> violates_protocol(after(m, e).state, e) || (after(after(m, e), e)
            == after(m, e) && command_of(after(m, e), e) is None),
{
}

/// A radio outcome that is out of protocol never leads to a connection
/// attempt, and never replaces the network that the machine is after.
pub proof fn violation_never_connects(m: MachineView, e: Event)
    requires
        violates_protocol(m.state, e),
    ensures
        action_of(m.state, e) != Some(Action::AttemptConnect),
        after(m, e).ssid == m.ssid,
        after(m, e).credentials == m.credentials,
{
}

} // verus!
