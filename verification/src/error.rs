//! The failures that session operations report.

use vstd::prelude::*;

verus! {

/// Why a session operation did not go through.
#[derive(Clone, Copy, Debug, PartialEq, Eq, Structural)]
pub enum SessionError {
    /// A start was requested while a valid session exists.
    AlreadyActive,
    /// An end was requested while no session is active.
    NoActiveSession,
    /// The enforcement daemon could not be launched, or did not confirm that
    /// it holds the inhibitor in time.
    DaemonSpawnFailed,
    /// A store operation lost to a record that another party holds.
    Conflict,
}

impl SessionError {
    /// The text of this failure, as in the view of the returned string.
    pub open spec fn text(self) -> Seq<char> {
        match self {
            SessionError::AlreadyActive => "a session is already active"@,
            SessionError::NoActiveSession => "no session is active"@,
            SessionError::DaemonSpawnFailed => "the enforcement daemon could not be started"@,
            SessionError::Conflict => "the session store is held by another session"@,
        }
    }

    /// A short description of the failure, for logs.
    pub fn describe(self) -> (text: String)
        ensures
            text@ == self.text(),
    {
        match self {
            SessionError::AlreadyActive => String::from_str("a session is already active"),
            SessionError::NoActiveSession => String::from_str("no session is active"),
            SessionError::DaemonSpawnFailed => String::from_str(
                "the enforcement daemon could not be started",
            ),
            SessionError::Conflict => String::from_str(
                "the session store is held by another session",
            ),
        }
    }
}

} // verus!
