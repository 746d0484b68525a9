//! The message vocabulary of the two windows.
//!
//! Plain command data: a presentation layer turns user gestures into these
//! and hands them to the engine's operations.

use vstd::prelude::*;

use crate::idle_monitoring::IdleInfo;

verus! {

/// What the monitoring loop broadcasts to its observers.
#[derive(Clone, Copy, Debug, PartialEq, Eq, Structural)]
pub enum IdleMonitorMessage {
    IdleInfoUpdate(IdleInfo),
}

/// What the main window can be asked to do.
#[derive(Clone, Copy, Debug, PartialEq, Eq, Structural)]
pub enum MainWindowMsg {
    Update,
    ForceBreak,
    Snooze { minutes: i64 },
    Mute,
    Unmute,
    SetReadingMode(bool),
    SetTimeToBreak(i64),
    SetBreakLength(i64),
    Hide { notify: bool },
}

/// What the main window schedules for itself.
#[derive(Clone, Copy, Debug, PartialEq, Eq, Structural)]
pub enum MainWindowCmd {
    TriggerUpdate,
}

/// What the break window can be asked to do.
#[derive(Clone, Copy, Debug, PartialEq, Eq, Structural)]
pub enum BreakWindowMsg {
    Update,
    Postpone,
    Skip,
}

/// What the break window schedules for itself.
#[derive(Clone, Copy, Debug, PartialEq, Eq, Structural)]
pub enum BreakWindowCmd {
    Update,
}

} // verus!
