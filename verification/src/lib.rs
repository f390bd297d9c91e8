//! Connectivity controller for a power-constrained wireless node.
//!
//! The controller is a state machine that decides when the radio scans,
//! connects and disconnects. It consumes one event at a time and answers with
//! the command, if any, that the radio has to carry out. Everything here is
//! synchronous and free of side effects: the task that owns the machine
//! performs the commands and feeds the outcomes back as events.

pub mod types;
pub mod table;
pub mod machine;
pub mod laws;
pub mod queue;
pub mod radio;
pub mod trace;

pub use crate::machine::{MachineView, Step, WifiStateMachine};
pub use crate::queue::EventQueue;
pub use crate::table::{Outcome, Transition};
pub use crate::types::{Action, Command, CommandView, Event, State};
