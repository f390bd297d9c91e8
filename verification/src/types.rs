//! The vocabulary of the controller: states, events, entry actions, commands.

use vstd::prelude::*;

verus! {

/// The connectivity states. Exactly one of them is active at any instant.
#[derive(Clone, Copy, Debug, PartialEq, Eq, Structural)]
pub enum State {
    Off,
    On,
    Scanning,
    Connecting,
    Connected,
    LostConnection,
}

/// What the radio and the motion sensor report.
///
/// `SsidFound` carries the identifier of the network that the scan found, as
/// the bytes that the radio delivered.
#[derive(Clone, Debug, PartialEq, Eq)]
pub enum Event {
    ScanRequested,
    SsidFound(Vec<u8>),
    ConnectionSucceeded,
    ConnectionFailed,
    ConnectionLost,
    DeviceMoving,
    DeviceStationary,
}

/// The side effect that runs once when a state is entered.
#[derive(Clone, Copy, Debug, PartialEq, Eq, Structural)]
pub enum Action {
    BeginScan,
    AttemptConnect,
    StopRadio,
}

/// A request to the radio. Its outcome never comes back as a return value: it
/// arrives later as an event.
#[derive(Clone, Debug, PartialEq, Eq)]
pub enum Command {
    StartScan,
    Connect { ssid: Vec<u8>, credentials: Vec<u8> },
    Disconnect,
}

/// A command as contracts see it: byte strings are sequences.
pub enum CommandView {
    StartScan,
    Connect { ssid: Seq<u8>, credentials: Seq<u8> },
    Disconnect,
}

impl View for Command {
    type V = CommandView;

    open spec fn view(&self) -> CommandView {
        match *self {
            Command::StartScan => CommandView::StartScan,
            Command::Connect { ssid, credentials } => CommandView::Connect {
                ssid: ssid@,
                credentials: credentials@,
            },
            Command::Disconnect => CommandView::Disconnect,
        }
    }
}

impl CommandView {
    /// The entry action that issues this command.
    pub open spec fn action(self) -> Action {
        match self {
            CommandView::StartScan => Action::BeginScan,
            CommandView::Connect { .. } => Action::AttemptConnect,
            CommandView::Disconnect => Action::StopRadio,
        }
    }
}

impl Event {
    /// The event reports how a radio operation ended.
    pub open spec fn is_radio_outcome(self) -> bool {
        self is SsidFound || self is ConnectionSucceeded || self is ConnectionFailed
            || self is ConnectionLost
    }

    /// The event reports an edge of the motion sensor.
    pub open spec fn is_motion(self) -> bool {
        self is DeviceMoving || self is DeviceStationary
    }

    /// Tells whether the event is the terminal outcome of a radio operation.
    pub fn radio_outcome(&self) -> (res: bool)
        ensures
            res == self.is_radio_outcome(),
    {
        match self {
            Event::SsidFound(_) => true,
            Event::ConnectionSucceeded => true,
            Event::ConnectionFailed => true,
            Event::ConnectionLost => true,
            _ => false,
        }
    }

    /// Tells whether the event comes from the motion sensor.
    pub fn motion(&self) -> (res: bool)
        ensures
            res == self.is_motion(),
    {
        match self {
            Event::DeviceMoving => true,
            Event::DeviceStationary => true,
            _ => false,
        }
    }
}

impl State {
    /// The action that runs on every transition into this state from another.
    pub open spec fn spec_entry_action(self) -> Option<Action> {
        match self {
            State::Scanning => Some(Action::BeginScan),
            State::Connecting => Some(Action::AttemptConnect),
            State::Off => Some(Action::StopRadio),
            _ => None,
        }
    }

    /// The radio outcomes that this state is waiting for: a scan result while
    /// scanning, the end of a connection attempt while connecting, the loss
    /// of the link while connected, and the end of the link that the radio
    /// was told to drop on the way into `Off`.
    pub open spec fn awaits(self, e: Event) -> bool {
        match self {
            State::Scanning => e is SsidFound,
            State::Connecting => e is ConnectionSucceeded || e is ConnectionFailed,
            State::Connected => e is ConnectionLost,
            State::Off => e is ConnectionLost,
            _ => false,
        }
    }

    /// The action that runs on every transition into this state from another.
    pub fn entry_action(self) -> (res: Option<Action>)
        ensures
            res == self.spec_entry_action(),
    {
        match self {
            State::Scanning => Some(Action::BeginScan),
            State::Connecting => Some(Action::AttemptConnect),
            State::Off => Some(Action::StopRadio),
            _ => None,
        }
    }
}

} // verus!
