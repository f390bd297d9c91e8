//! The state machine itself: the single holder of the connectivity state.

use vstd::prelude::*;
use crate::table::{
    action_of, cell, handler_outcome, next_state, violates_protocol, Outcome, Transition,
};
use crate::queue::EventQueue;
use crate::types::{Action, Command, CommandView, Event, State};

verus! {

/// The connectivity controller.
///
/// Besides the active state it remembers the network it is after and the
/// credentials for it. Only [`WifiStateMachine::handle`] changes it.
#[derive(Debug)]
pub struct WifiStateMachine {
    state: State,
    ssid: Vec<u8>,
    credentials: Vec<u8>,
}

/// The machine as contracts see it.
pub struct MachineView {
    /// The active state.
    pub state: State,
    /// The network that the next connection attempt goes to.
    pub ssid: Seq<u8>,
    /// The secret presented with every connection attempt.
    pub credentials: Seq<u8>,
}

/// What one call of [`WifiStateMachine::handle`] did.
#[derive(Debug)]
pub struct Step {
    /// The active state is another than before.
    pub transitioned: bool,
    /// The command that the radio has to carry out now, once.
    pub command: Option<Command>,
    /// The event was a radio outcome that the state was not waiting for. The
    /// caller owes a visible diagnostic.
    pub violation: bool,
}

impl Step {
    /// The command of this step, byte strings taken as sequences.
    pub open spec fn issued(self) -> Option<CommandView> {
        match self.command {
            Some(c) => Some(c@),
            None => None,
        }
    }
}

/// The network that the machine is after once it has consumed `e`: the one
/// that a scan just found, else the one it was after before.
pub open spec fn target_after(m: MachineView, e: Event) -> Seq<u8> {
    match e {
        Event::SsidFound(found) => if m.state is Scanning {
            found@
        } else {
            m.ssid
        },
        _ => m.ssid,
    }
}

/// The machine after it has consumed `e`.
pub open spec fn after(m: MachineView, e: Event) -> MachineView {
    MachineView {
        state: next_state(m.state, e),
        ssid: target_after(m, e),
        credentials: m.credentials,
    }
}

/// The command that the machine issues when it consumes `e`.
pub open spec fn command_of(m: MachineView, e: Event) -> Option<CommandView> {
    match action_of(m.state, e) {
        None => None,
        Some(Action::BeginScan) => Some(CommandView::StartScan),
        Some(Action::AttemptConnect) => Some(
            CommandView::Connect { ssid: target_after(m, e), credentials: m.credentials },
        ),
        Some(Action::StopRadio) => Some(CommandView::Disconnect),
    }
}

/// A fresh vector with the same bytes.
fn copy_bytes(src: &Vec<u8>) -> (res: Vec<u8>)
    ensures
        res@ == src@,
{
    let mut res: Vec<u8> = Vec::new();
    let mut i: usize = 0;
    while i < src.len()
        invariant
            i <= src.len(),
            res@ == src@.subrange(0, i as int),
        decreases src.len() - i,
    {
        res.push(src[i]);
        i += 1;
    }
    assert(src@.subrange(0, src.len() as int) == src@);
    res
}

impl View for WifiStateMachine {
    type V = MachineView;

    closed spec fn view(&self) -> MachineView {
        MachineView { state: self.state, ssid: self.ssid@, credentials: self.credentials@ }
    }
}

impl WifiStateMachine {
    /// A machine in the initial state `On`, after the network `ssid`, with
    /// the credentials to present to it.
    pub fn new(ssid: Vec<u8>, credentials: Vec<u8>) -> (m: WifiStateMachine)
        ensures
            m@ == (MachineView { state: State::On, ssid: ssid@, credentials: credentials@ }),
    {
        WifiStateMachine { state: State::On, ssid, credentials }
    }

    /// The active state.
    pub fn state(&self) -> (s: State)
        ensures
            s == self@.state,
    {
        self.state
    }

    /// The network that the next connection attempt goes to.
    pub fn ssid(&self) -> (bytes: &Vec<u8>)
        ensures
            bytes@ == self@.ssid,
    {
        &self.ssid
    }

    /// The secret presented with every connection attempt.
    pub fn credentials(&self) -> (bytes: &Vec<u8>)
        ensures
            bytes@ == self@.credentials,
    {
        &self.credentials
    }

    /// Handler of `On`: whatever happens, start scanning.
    pub fn on(event: &Event) -> (out: Outcome)
        ensures
            out == handler_outcome(State::On, *event),
    {
        match event {
            _ => Outcome::Transition(State::Scanning),
        }
    }

    /// Handler of `Scanning`: a network found, or the device starting to
    /// move, leads to a connection attempt.
    pub fn scanning(event: &Event) -> (out: Outcome)
        ensures
            out == handler_outcome(State::Scanning, *event),
    {
        match event {
            Event::SsidFound(_) => Outcome::Transition(State::Connecting),
            Event::DeviceMoving => Outcome::Transition(State::Connecting),
            _ => Outcome::Super,
        }
    }

    /// Handler of `Connecting`: success leads to `Connected`; a failure, and
    /// anything else, leads back to scanning.
    pub fn connect(event: &Event) -> (out: Outcome)
        ensures
            out == handler_outcome(State::Connecting, *event),
    {
        match event {
            Event::ConnectionSucceeded => Outcome::Transition(State::Connected),
            Event::ConnectionFailed => Outcome::Transition(State::Scanning),
            _ => Outcome::Transition(State::Scanning),
        }
    }

    /// Handler of `Connected`: only the loss of the link matters.
    pub fn connected(event: &Event) -> (out: Outcome)
        ensures
            out == handler_outcome(State::Connected, *event),
    {
        match event {
            Event::ConnectionLost => Outcome::Transition(State::LostConnection),
            _ => Outcome::Super,
        }
    }

    /// Handler of `LostConnection`: a moving device switches the radio off,
    /// a resting one scans again.
    pub fn lost_connection(event: &Event) -> (out: Outcome)
        ensures
            out == handler_outcome(State::LostConnection, *event),
    {
        match event {
            Event::DeviceMoving => Outcome::Transition(State::Off),
            Event::DeviceStationary => Outcome::Transition(State::Scanning),
            _ => Outcome::Super,
        }
    }

    /// Handler of `Off`: the radio comes back once the device rests.
    pub fn off(event: &Event) -> (out: Outcome)
        ensures
            out == handler_outcome(State::Off, *event),
    {
        match event {
            Event::DeviceStationary => Outcome::Transition(State::On),
            _ => Outcome::Super,
        }
    }

    /// The shared default handler, asked where a state has no rule of its
    /// own: it discards the event.
    pub fn fallback(event: &Event) -> (out: Outcome)
        ensures
            out == Outcome::Handled,
    {
        match event {
            _ => Outcome::Handled,
        }
    }

    /// Asks the handler of `state`.
    pub fn dispatch(state: State, event: &Event) -> (out: Outcome)
        ensures
            out == handler_outcome(state, *event),
    {
        match state {
            State::Off => Self::off(event),
            State::On => Self::on(event),
            State::Scanning => Self::scanning(event),
            State::Connecting => Self::connect(event),
            State::Connected => Self::connected(event),
            State::LostConnection => Self::lost_connection(event),
        }
    }

    /// Looks up the table: the state that follows `state` on `event`, and the
    /// entry action to run.
    pub fn transition(state: State, event: &Event) -> (t: Transition)
        ensures
            t == cell(state, *event),
    {
        let first = Self::dispatch(state, event);
        let out = match first {
            Outcome::Super => Self::fallback(event),
            _ => first,
        };
        match out {
            Outcome::Transition(next) => {
                if next == state {
                    Transition { next: state, action: None }
                } else {
                    Transition { next, action: next.entry_action() }
                }
            },
            _ => Transition { next: state, action: None },
        }
    }

    /// Tells whether `event` is a radio outcome that `state` was not waiting
    /// for.
    pub fn out_of_protocol(state: State, event: &Event) -> (res: bool)
        ensures
            res == violates_protocol(state, *event),
    {
        match event {
            Event::SsidFound(_) => !matches!(state, State::Scanning),
            Event::ConnectionSucceeded => !matches!(state, State::Connecting),
            Event::ConnectionFailed => !matches!(state, State::Connecting),
            Event::ConnectionLost => !matches!(state, State::Connected | State::Off),
            _ => false,
        }
    }

    /// Consumes one event: moves to the state that the table gives and
    /// answers with the command to carry out.
    ///
    /// A command is issued only on a step into another state, and then it is
    /// that state's entry action. A connection attempt goes to the network
    /// that the scan just found.
    pub fn handle(&mut self, event: &Event) -> (step: Step)
        ensures
            final(self)@ == after(old(self)@, *event),
            step.transitioned == (next_state(old(self)@.state, *event) != old(self)@.state),
            step.issued() == command_of(old(self)@, *event),
            step.violation == violates_protocol(old(self)@.state, *event),
    {
        let from = self.state;
        let t = Self::transition(from, event);
        let violation = Self::out_of_protocol(from, event);
        match event {
            Event::SsidFound(found) => {
                if matches!(from, State::Scanning) {
                    self.ssid = copy_bytes(found);
                }
            },
            _ => {},
        }
        self.state = t.next;
        let command = match t.action {
            None => None,
            Some(Action::BeginScan) => Some(Command::StartScan),
            Some(Action::AttemptConnect) => Some(
                Command::Connect {
                    ssid: copy_bytes(&self.ssid),
                    credentials: copy_bytes(&self.credentials),
                },
            ),
            Some(Action::StopRadio) => Some(Command::Disconnect),
        };
        Step { transitioned: t.next != from, command, violation }
    }

    /// Takes the oldest event that waits in `queue` and consumes it. With
    /// nothing waiting, nothing changes.
    pub fn handle_next(&mut self, queue: &mut EventQueue) -> (step: Option<Step>)
        ensures
            old(queue)@.len() == 0 ==> step is None && final(self)@ == old(self)@ && final(queue)@
                == old(queue)@,
            old(queue)@.len() > 0 ==> {
                &&& final(queue)@ == old(queue)@.drop_first()
                &&& final(self)@ == after(old(self)@, old(queue)@[0])
                &&& step matches Some(done)
                &&& done.transitioned == (final(self)@.state != old(self)@.state)
                &&& done.issued() == command_of(old(self)@, old(queue)@[0])
                &&& done.violation == violates_protocol(old(self)@.state, old(queue)@[0])
            },
    {
        match queue.pop() {
            None => None,
            Some(event) => Some(self.handle(&event)),
        }
    }
}

impl Default for WifiStateMachine {
    /// A machine in the initial state, with no network and no credentials
    /// yet.
    fn default() -> (m: WifiStateMachine)
        ensures
            m@ == (MachineView { state: State::On, ssid: Seq::empty(), credentials: Seq::empty() }),
    {
        WifiStateMachine::new(Vec::new(), Vec::new())
    }
}

} // verus!
