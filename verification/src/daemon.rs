//! The enforcement daemon: the one long-lived process of a session. It holds
//! the sleep inhibitor, waits for its timer or for a request to stop, cleans
//! up after itself and exits. What it waits for and what it does to the
//! machine is the runner's business; what it decides is here.

use crate::session::valid_length;
use vstd::prelude::*;

verus! {

/// The exit code of a daemon that cleaned up after itself.
pub const EXIT_CLEAN: u8 = 0;

/// The exit code of a daemon that could not get the inhibitor.
pub const EXIT_NO_INHIBITOR: u8 = 1;

/// Where a daemon is in its life.
#[derive(Clone, Copy, Debug, PartialEq, Eq)]
pub enum DaemonState {
    /// Launched, the inhibitor not yet acquired.
    Starting,
    /// The inhibitor is held.
    Holding,
    /// The timer fired; the daemon is cleaning up.
    ExpiredCleanup,
    /// A stop was requested; the daemon is cleaning up.
    SignaledCleanup,
    /// The daemon is about to exit, or has.
    Terminated,
}

/// What can happen to a daemon.
#[derive(Clone, Copy, Debug, PartialEq, Eq)]
pub enum DaemonEvent {
    /// The inhibitor was acquired.
    InhibitorAcquired,
    /// The inhibitor could not be acquired.
    AcquisitionFailed,
    /// The session's timer fired.
    TimerFired,
    /// Somebody asked the daemon to stop.
    TerminationRequested,
    /// The cleanup that was asked for is done.
    CleanupFinished,
}

/// What the runner has to do next.
#[derive(Clone, Copy, Debug, PartialEq, Eq)]
pub enum DaemonAction {
    /// Confirm the acquisition, arm a timer of `seconds` and wait for it or
    /// for a request to stop.
    ArmTimer { seconds: u64 },
    /// Confirm the acquisition and wait for a request to stop.
    AwaitSignal,
    /// Release the inhibitor and clear the store of the record of
    /// `daemon_id`.
    ReleaseAndClear { daemon_id: u32 },
    /// Exit with `code`.
    Exit { code: u8 },
    /// Nothing: the event does not concern a daemon in this state.
    Ignore,
}

/// The state that follows `state` on `event`, for a daemon whose session
/// lasts `session_length`. A pair that is not listed leaves the state as it
/// is; a timer counts only where one was armed.
pub open spec fn next_state(
    state: DaemonState,
    session_length: Option<u64>,
    event: DaemonEvent,
) -> DaemonState {
    match (state, event) {
        (DaemonState::Starting, DaemonEvent::InhibitorAcquired) => DaemonState::Holding,
        (DaemonState::Starting, DaemonEvent::AcquisitionFailed) => DaemonState::Terminated,
        (DaemonState::Holding, DaemonEvent::TimerFired) => if session_length is Some {
            DaemonState::ExpiredCleanup
        } else {
            DaemonState::Holding
        },
        (DaemonState::Holding, DaemonEvent::TerminationRequested) => DaemonState::SignaledCleanup,
        (DaemonState::ExpiredCleanup, DaemonEvent::CleanupFinished) => DaemonState::Terminated,
        (DaemonState::SignaledCleanup, DaemonEvent::CleanupFinished) => DaemonState::Terminated,
        _ => state,
    }
}

/// What the daemon `daemon_id` asks of its runner on `event` in `state`.
pub open spec fn action_for(
    daemon_id: u32,
    state: DaemonState,
    session_length: Option<u64>,
    event: DaemonEvent,
) -> DaemonAction {
    match (state, event) {
        (DaemonState::Starting, DaemonEvent::InhibitorAcquired) => match session_length {
            Some(seconds) => DaemonAction::ArmTimer { seconds },
            None => DaemonAction::AwaitSignal,
        },
        (DaemonState::Starting, DaemonEvent::AcquisitionFailed) => DaemonAction::Exit {
            code: EXIT_NO_INHIBITOR,
        },
        (DaemonState::Holding, DaemonEvent::TimerFired) => if session_length is Some {
            DaemonAction::ReleaseAndClear { daemon_id }
        } else {
            DaemonAction::Ignore
        },
        (DaemonState::Holding, DaemonEvent::TerminationRequested) => DaemonAction::ReleaseAndClear {
            daemon_id,
        },
        (DaemonState::ExpiredCleanup, DaemonEvent::CleanupFinished) => DaemonAction::Exit {
            code: EXIT_CLEAN,
        },
        (DaemonState::SignaledCleanup, DaemonEvent::CleanupFinished) => DaemonAction::Exit {
            code: EXIT_CLEAN,
        },
        _ => DaemonAction::Ignore,
    }
}

/// How far a state is along the daemon's life. The two cleanups are equally
/// far.
pub open spec fn progress(state: DaemonState) -> nat {
    match state {
        DaemonState::Starting => 0,
        DaemonState::Holding => 1,
        DaemonState::ExpiredCleanup => 2,
        DaemonState::SignaledCleanup => 2,
        DaemonState::Terminated => 3,
    }
}

/// One enforcement daemon.
#[derive(Clone, Copy, Debug, PartialEq, Eq)]
pub struct EnforcementDaemon {
    id: u32,
    session_length: Option<u64>,
    state: DaemonState,
}

impl EnforcementDaemon {
    /// The daemon's identifier.
    pub closed spec fn spec_id(&self) -> u32 {
        self.id
    }

    /// The length of the session that the daemon enforces.
    pub closed spec fn spec_session_length(&self) -> Option<u64> {
        self.session_length
    }

    /// The daemon's state.
    pub closed spec fn spec_state(&self) -> DaemonState {
        self.state
    }

    /// The length that the daemon enforces is one that a session may have.
    pub open spec fn wf(&self) -> bool {
        valid_length(self.spec_session_length())
    }

    /// A daemon that was just launched as the process `id`, for a session of
    /// `session_length`.
    pub fn launch(id: u32, session_length: Option<u64>) -> (daemon: EnforcementDaemon)
        requires
            valid_length(session_length),
        ensures
            daemon.spec_id() == id,
            daemon.spec_session_length() == session_length,
            daemon.spec_state() == DaemonState::Starting,
            daemon.wf(),
    {
        EnforcementDaemon { id, session_length, state: DaemonState::Starting }
    }

    /// The daemon's identifier.
    #[verifier::when_used_as_spec(spec_id)]
    pub fn id(&self) -> (id: u32)
        ensures
            id == self.spec_id(),
    {
        self.id
    }

    /// The length of the session that the daemon enforces.
    #[verifier::when_used_as_spec(spec_session_length)]
    pub fn session_length(&self) -> (session_length: Option<u64>)
        ensures
            session_length == self.spec_session_length(),
    {
        self.session_length
    }

    /// The daemon's state.
    #[verifier::when_used_as_spec(spec_state)]
    pub fn state(&self) -> (state: DaemonState)
        ensures
            state == self.spec_state(),
    {
        self.state
    }

    /// Takes `event` in: moves the daemon to the state that follows and says
    /// what its runner has to do.
    pub fn handle(&mut self, event: DaemonEvent) -> (action: DaemonAction)
        ensures
            final(self).state() == next_state(old(self).state(), old(self).session_length(), event),
            final(self).id() == old(self).id(),
            final(self).session_length() == old(self).session_length(),
            action == action_for(
                old(self).id(),
                old(self).state(),
                old(self).session_length(),
                event,
            ),
    {
        match (self.state, event) {
            (DaemonState::Starting, DaemonEvent::InhibitorAcquired) => {
                self.state = DaemonState::Holding;
                match self.session_length {
                    Some(seconds) => DaemonAction::ArmTimer { seconds },
                    None => DaemonAction::AwaitSignal,
                }
            },
            (DaemonState::Starting, DaemonEvent::AcquisitionFailed) => {
                self.state = DaemonState::Terminated;
                DaemonAction::Exit { code: EXIT_NO_INHIBITOR }
            },
            (DaemonState::Holding, DaemonEvent::TimerFired) => {
                if self.session_length.is_some() {
                    self.state = DaemonState::ExpiredCleanup;
                    DaemonAction::ReleaseAndClear { daemon_id: self.id }
                } else {
                    DaemonAction::Ignore
                }
            },
            (DaemonState::Holding, DaemonEvent::TerminationRequested) => {
                self.state = DaemonState::SignaledCleanup;
                DaemonAction::ReleaseAndClear { daemon_id: self.id }
            },
            (DaemonState::ExpiredCleanup, DaemonEvent::CleanupFinished) => {
                self.state = DaemonState::Terminated;
                DaemonAction::Exit { code: EXIT_CLEAN }
            },
            (DaemonState::SignaledCleanup, DaemonEvent::CleanupFinished) => {
                self.state = DaemonState::Terminated;
                DaemonAction::Exit { code: EXIT_CLEAN }
            },
            _ => DaemonAction::Ignore,
        }
    }
}

/// A daemon never goes back: whatever happens, the state that follows is at
/// least as far along as the one before, and a daemon that has terminated
/// stays so and asks for nothing more.
pub proof fn law_daemon_only_advances(
    daemon_id: u32,
    state: DaemonState,
    session_length: Option<u64>,
    event: DaemonEvent,
)
    ensures
        progress(state) <= progress(next_state(state, session_length, event)),
        state == DaemonState::Terminated ==> next_state(state, session_length, event)
            == DaemonState::Terminated && action_for(daemon_id, state, session_length, event)
            == DaemonAction::Ignore,
{
}

/// A daemon exits cleanly only out of a cleanup, and every cleanup was asked
/// for with the daemon's own identifier while it held the inhibitor.
pub proof fn law_daemon_cleans_up_before_exit(
    daemon_id: u32,
    state: DaemonState,
    session_length: Option<u64>,
    event: DaemonEvent,
)
    ensures
        action_for(daemon_id, state, session_length, event) == (DaemonAction::Exit {
            code: EXIT_CLEAN,
        }) ==> state == DaemonState::ExpiredCleanup || state == DaemonState::SignaledCleanup,
        action_for(daemon_id, state, session_length, event) matches DaemonAction::ReleaseAndClear {
            daemon_id: named,
        } ==> named == daemon_id && state == DaemonState::Holding,
        (next_state(state, session_length, event) == DaemonState::ExpiredCleanup && state
            != DaemonState::ExpiredCleanup) ==> action_for(daemon_id, state, session_length, event)
            == (DaemonAction::ReleaseAndClear { daemon_id }),
        (next_state(state, session_length, event) == DaemonState::SignaledCleanup && state
            != DaemonState::SignaledCleanup) ==> action_for(daemon_id, state, session_length, event)
            == (DaemonAction::ReleaseAndClear { daemon_id }),
{
}

} // verus!
