//! Errors reported by the command surface.
//!
//! Two kinds suffice: the caller supplied a value outside the accepted
//! domain, or the operation is not valid given the current state. Every
//! operation is a single atomic state transition, so an error always leaves
//! the manager unchanged.

use vstd::prelude::*;

verus! {

/// Classification of a command error.
#[derive(Clone, Copy, Debug, PartialEq, Eq, Structural)]
pub enum ErrorKind {
    /// The caller supplied a value outside the accepted domain.
    InvalidArgument,
    /// The operation is not valid given the current state.
    StateError,
}

/// An error returned by a command, with a fixed descriptive message
/// per variant.
#[derive(Clone, Copy, Debug, PartialEq, Eq, Structural)]
pub enum CommandError {
    /// `start` was given an unrecognized session type.
    InvalidSessionType,
    /// `pause` was called with no active session.
    NoActiveSession,
    /// A journal mood value was outside the 1..=5 scale.
    InvalidMood,
    /// A reminder id did not match any stored reminder.
    ReminderNotFound,
}

impl CommandError {
    /// The kind this error falls under.
    pub fn kind(&self) -> (k: ErrorKind)
        ensures
            k == self.spec_kind(),
    {
        match self {
            CommandError::InvalidSessionType => ErrorKind::InvalidArgument,
            CommandError::InvalidMood => ErrorKind::InvalidArgument,
            CommandError::NoActiveSession => ErrorKind::StateError,
            CommandError::ReminderNotFound => ErrorKind::StateError,
        }
    }

    /// The kind this error falls under, as a spec-level function.
    pub open spec fn spec_kind(&self) -> ErrorKind {
        match self {
            CommandError::InvalidSessionType => ErrorKind::InvalidArgument,
            CommandError::InvalidMood => ErrorKind::InvalidArgument,
            CommandError::NoActiveSession => ErrorKind::StateError,
            CommandError::ReminderNotFound => ErrorKind::StateError,
        }
    }

    /// The descriptive message reported to the caller.
    pub fn message(&self) -> (m: String)
        ensures
            self is InvalidSessionType ==> m@ == "Invalid session type"@,
            self is NoActiveSession ==> m@ == "No active session"@,
            self is InvalidMood ==> m@ == "Mood must be between 1 and 5"@,
            self is ReminderNotFound ==> m@ == "Reminder not found"@,
    {
        match self {
            CommandError::InvalidSessionType => "Invalid session type".to_owned(),
            CommandError::NoActiveSession => "No active session".to_owned(),
            CommandError::InvalidMood => "Mood must be between 1 and 5".to_owned(),
            CommandError::ReminderNotFound => "Reminder not found".to_owned(),
        }
    }
}

} // verus!
