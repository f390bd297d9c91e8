//! The machine over a whole trace of events.

use vstd::prelude::*;
use crate::machine::{after, command_of, MachineView};
use crate::types::{Action, CommandView, Event, State};

verus! {

/// The machine after it has consumed `events`, first to last.
pub open spec fn run(m: MachineView, events: Seq<Event>) -> MachineView
    decreases events.len(),
{
    if events.len() == 0 {
        m
    } else {
        after(run(m, events.drop_last()), events.last())
    }
}

/// The commands that the machine issues while it consumes `events`, in the
/// order in which it issues them.
pub open spec fn commands(m: MachineView, events: Seq<Event>) -> Seq<CommandView>
    decreases events.len(),
{
    if events.len() == 0 {
        Seq::empty()
    } else {
        let earlier = commands(m, events.drop_last());
        match command_of(run(m, events.drop_last()), events.last()) {
            Some(c) => earlier.push(c),
            None => earlier,
        }
    }
}

/// The action behind the latest command of a machine in state `s` that has
/// issued one.
pub open spec fn latest_action(s: State) -> Action {
    match s {
        State::Scanning => Action::BeginScan,
        State::Connecting => Action::AttemptConnect,
        State::Connected => Action::AttemptConnect,
        State::LostConnection => Action::AttemptConnect,
        State::Off => Action::StopRadio,
        State::On => Action::StopRadio,
    }
}

/// The state tells what the latest command was: once a command has been
/// issued along a trace, the latest one is that of [`latest_action`].
pub proof fn state_tells_latest_command(m: MachineView, events: Seq<Event>)
    ensures
        commands(m, events).len() > 0 ==> commands(m, events).last().action() == latest_action(
            run(m, events).state,
        ),
    decreases events.len(),
{
    if events.len() > 0 {
        state_tells_latest_command(m, events.drop_last());
    }
}

/// Along any trace, from any machine, no command is issued twice in a row:
/// between two scans there is a connection attempt or a disconnect, between
/// two connection attempts a scan, between two disconnects a scan.
pub proof fn no_command_twice_in_a_row(m: MachineView, events: Seq<Event>, i: int)
    requires
        0 <= i,
        i + 1 < commands(m, events).len(),
    ensures
        commands(m, events)[i].action() != commands(m, events)[i + 1].action(),
    decreases events.len(),
{
    let earlier = events.drop_last();
    if i + 1 < commands(m, earlier).len() {
        no_command_twice_in_a_row(m, earlier, i);
    } else {
        state_tells_latest_command(m, earlier);
    }
}

/// A trace never issues more commands than it has events.
pub proof fn at_most_one_command_per_event(m: MachineView, events: Seq<Event>)
    ensures
        commands(m, events).len() <= events.len(),
    decreases events.len(),
{
    if events.len() > 0 {
        at_most_one_command_per_event(m, events.drop_last());
    }
}

/// No trace changes the credentials, and every connection attempt along it
/// presents them.
pub proof fn credentials_are_kept(m: MachineView, events: Seq<Event>, i: int)
    ensures
        run(m, events).credentials == m.credentials,
        0 <= i < commands(m, events).len() ==> (commands(m, events)[i] matches CommandView::Connect {
            credentials,
            ..
        } ==> credentials == m.credentials),
    decreases events.len(),
{
    if events.len() > 0 {
        credentials_are_kept(m, events.drop_last(), i);
    }
}

} // verus!
