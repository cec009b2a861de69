//! The session manager: what every short-lived caller goes through to start
//! a session, to ask for its status and to end it. The manager decides; the
//! caller launches and signals the daemon and tells the manager how that
//! went.

use crate::error::SessionError;
use crate::session::{valid_length, Session};
use crate::store::{slot_after_write, valid_record, SessionStore, WriteIntent};
use vstd::prelude::*;

verus! {

/// The go-ahead for a start: the caller is to launch an enforcement daemon
/// for a session of this length and wait, for a bounded time, until it
/// confirms that it holds the inhibitor.
#[derive(Clone, Copy, Debug, PartialEq, Eq)]
pub struct SpawnRequest {
    /// The length of the session to enforce; `None` for one without an end.
    pub session_length: Option<u64>,
}

/// How the launch of a daemon went.
#[derive(Clone, Copy, Debug, PartialEq, Eq)]
pub enum SpawnOutcome {
    /// The daemon `daemon_id` runs and has confirmed that it holds the
    /// inhibitor.
    Confirmed { daemon_id: u32 },
    /// No daemon could be launched.
    LaunchFailed,
    /// The daemon `daemon_id` was launched and did not confirm in time.
    TimedOut { daemon_id: u32 },
}

/// Where the wait for a new daemon's confirmation stands.
#[derive(Clone, Copy, Debug, PartialEq, Eq)]
pub enum Handshake {
    /// Nothing is known yet and there is time left: look again.
    Pending,
    /// The wait is over, with this outcome.
    Settled(SpawnOutcome),
}

/// How a start ended.
#[derive(Clone, Copy, Debug, PartialEq, Eq)]
pub struct StartReport {
    /// The session that was recorded, or why none was.
    pub result: Result<Session, SessionError>,
    /// A daemon that the caller has to terminate before it returns, so that
    /// none is left running without a record.
    pub terminate: Option<u32>,
}

/// Whether a start may go ahead: not while a valid session exists.
pub open spec fn start_decision(
    slot: Option<Session>,
    session_length: Option<u64>,
    daemon_alive: bool,
) -> Result<SpawnRequest, SessionError> {
    if valid_record(slot, daemon_alive) is Some {
        Err(SessionError::AlreadyActive)
    } else {
        Ok(SpawnRequest { session_length })
    }
}

/// Where the wait for a confirmation stands. `launched` is the daemon that
/// was launched, if one could be; `confirmed` says whether it has confirmed
/// that it holds the inhibitor; `waited` is the time since the launch and
/// `timeout` the longest that the caller waits, both read off one monotonic
/// clock in one unit. A confirmation counts whenever it is seen, even at the
/// deadline; without one the wait ends when the timeout is reached.
pub open spec fn handshake(
    launched: Option<u32>,
    confirmed: bool,
    waited: u64,
    timeout: u64,
) -> Handshake {
    match launched {
        None => Handshake::Settled(SpawnOutcome::LaunchFailed),
        Some(daemon_id) => if confirmed {
            Handshake::Settled(SpawnOutcome::Confirmed { daemon_id })
        } else if waited >= timeout {
            Handshake::Settled(SpawnOutcome::TimedOut { daemon_id })
        } else {
            Handshake::Pending
        },
    }
}

/// The session that a start records: it begins at `now`, lasts as the
/// request says and belongs to the daemon that confirmed.
pub open spec fn started_session(request: SpawnRequest, daemon_id: u32, now: u64) -> Session {
    Session { start_time: now, session_length: request.session_length, daemon_id }
}

/// How a start ends, given how the launch went. A daemon that confirmed is
/// recorded, unless a valid session got into the slot in the meantime: then
/// the start fails as already active and the new daemon has to go. A daemon
/// that did not confirm in time has to go too, and the start fails like one
/// whose daemon never ran.
pub open spec fn start_report(
    slot: Option<Session>,
    request: SpawnRequest,
    outcome: SpawnOutcome,
    now: u64,
    daemon_alive: bool,
) -> StartReport {
    match outcome {
        SpawnOutcome::Confirmed { daemon_id } => if valid_record(slot, daemon_alive) is Some {
            StartReport { result: Err(SessionError::AlreadyActive), terminate: Some(daemon_id) }
        } else {
            StartReport { result: Ok(started_session(request, daemon_id, now)), terminate: None }
        },
        SpawnOutcome::LaunchFailed => StartReport {
            result: Err(SessionError::DaemonSpawnFailed),
            terminate: None,
        },
        SpawnOutcome::TimedOut { daemon_id } => StartReport {
            result: Err(SessionError::DaemonSpawnFailed),
            terminate: Some(daemon_id),
        },
    }
}

/// What the slot holds once a start has ended: the new session where one
/// was recorded, else what it held before.
pub open spec fn slot_after_start(
    slot: Option<Session>,
    request: SpawnRequest,
    outcome: SpawnOutcome,
    now: u64,
    daemon_alive: bool,
) -> Option<Session> {
    match outcome {
        SpawnOutcome::Confirmed { daemon_id } => slot_after_write(
            slot,
            started_session(request, daemon_id, now),
            daemon_alive,
        ),
        _ => slot,
    }
}

/// What an end reports: the daemon to send the termination request to, or
/// that no session is active.
pub open spec fn end_result(slot: Option<Session>, daemon_alive: bool) -> Result<
    u32,
    SessionError,
> {
    match valid_record(slot, daemon_alive) {
        Some(session) => Ok(session.daemon_id),
        None => Err(SessionError::NoActiveSession),
    }
}

/// One look at a daemon that was just launched, as `handshake` says. The
/// caller looks again while the answer is `Pending`, and hands the outcome
/// to `complete_start` once it is settled; the wait is bounded, since no
/// answer is `Pending` once `waited` has reached `timeout`.
pub fn poll_handshake(launched: Option<u32>, confirmed: bool, waited: u64, timeout: u64) -> (step:
    Handshake)
    ensures
        step == handshake(launched, confirmed, waited, timeout),
        waited >= timeout ==> step is Settled,
{
    match launched {
        None => Handshake::Settled(SpawnOutcome::LaunchFailed),
        Some(daemon_id) => {
            if confirmed {
                Handshake::Settled(SpawnOutcome::Confirmed { daemon_id })
            } else if waited >= timeout {
                Handshake::Settled(SpawnOutcome::TimedOut { daemon_id })
            } else {
                Handshake::Pending
            }
        },
    }
}

/// The manager, around the store that it works on. Its view is the record in
/// the store.
///
/// In each operation `daemon_alive` says whether the daemon that the stored
/// record names is alive at that moment; it is not looked at while the store
/// is empty.
#[derive(Clone, Copy, Debug, PartialEq, Eq)]
pub struct SessionManager {
    store: SessionStore,
}

impl View for SessionManager {
    type V = Option<Session>;

    closed spec fn view(&self) -> Option<Session> {
        self.store@
    }
}

impl SessionManager {
    /// The record in the store, if there is one, is well formed.
    pub open spec fn wf(&self) -> bool {
        self@ matches Some(session) ==> session.wf()
    }

    /// A manager that works on `store`.
    pub fn new(store: SessionStore) -> (manager: SessionManager)
        ensures
            manager@ == store@,
    {
        SessionManager { store }
    }

    /// The store as the operations so far have left it.
    pub fn store(&self) -> (store: SessionStore)
        ensures
            store@ == self@,
    {
        self.store
    }

    /// The current session, or `None` where there is none. This never fails:
    /// a stale record is removed from the store and reported as absent.
    pub fn status(&mut self, daemon_alive: bool) -> (session: Option<Session>)
        ensures
            session == valid_record(old(self)@, daemon_alive),
            !daemon_alive ==> session is None,
            final(self)@ == session,
            old(self).wf() ==> final(self).wf(),
    {
        self.store.read(daemon_alive)
    }

    /// The first half of a start: reads the store and fails with
    /// `AlreadyActive` while a valid session exists. Otherwise the caller
    /// gets the request to launch a daemon, follows the launch with
    /// `poll_handshake` and hands the outcome to `complete_start`. A stale
    /// record is removed on the way.
    pub fn start(&mut self, session_length: Option<u64>, daemon_alive: bool) -> (decision: Result<
        SpawnRequest,
        SessionError,
    >)
        requires
            valid_length(session_length),
        ensures
            decision == start_decision(old(self)@, session_length, daemon_alive),
            valid_record(old(self)@, daemon_alive) is Some ==> decision == Err::<
                SpawnRequest,
                SessionError,
            >(SessionError::AlreadyActive),
            final(self)@ == valid_record(old(self)@, daemon_alive),
            old(self).wf() ==> final(self).wf(),
    {
        match self.store.read(daemon_alive) {
            Some(_) => Err(SessionError::AlreadyActive),
            None => Ok(SpawnRequest { session_length }),
        }
    }

    /// The second half of a start. `outcome` says how the launch went and
    /// `now` what the clock reads. A confirmed daemon is recorded with `now`
    /// as the start of its session; the report says what became of the start
    /// and which daemon, if any, the caller has to terminate.
    pub fn complete_start(
        &mut self,
        request: SpawnRequest,
        outcome: SpawnOutcome,
        now: u64,
        daemon_alive: bool,
    ) -> (report: StartReport)
        requires
            valid_length(request.session_length),
        ensures
            report == start_report(old(self)@, request, outcome, now, daemon_alive),
            final(self)@ == slot_after_start(old(self)@, request, outcome, now, daemon_alive),
            old(self).wf() ==> final(self).wf(),
    {
        match outcome {
            SpawnOutcome::Confirmed { daemon_id } => {
                let session = Session::new(now, request.session_length, daemon_id);
                match self.store.write(session, WriteIntent::Start, daemon_alive) {
                    Ok(()) => StartReport { result: Ok(session), terminate: None },
                    Err(error) => StartReport { result: Err(error), terminate: Some(daemon_id) },
                }
            },
            SpawnOutcome::LaunchFailed => StartReport {
                result: Err(SessionError::DaemonSpawnFailed),
                terminate: None,
            },
            SpawnOutcome::TimedOut { daemon_id } => StartReport {
                result: Err(SessionError::DaemonSpawnFailed),
                terminate: Some(daemon_id),
            },
        }
    }

    /// Ends the current session: fails with `NoActiveSession` where there is
    /// none, else names the daemon that the caller has to send the
    /// termination request to. The record stays in the store until that
    /// daemon has cleaned up, or until a later read finds it stale.
    pub fn end(&mut self, daemon_alive: bool) -> (result: Result<u32, SessionError>)
        ensures
            result == end_result(old(self)@, daemon_alive),
            valid_record(old(self)@, daemon_alive) is None ==> result == Err::<u32, SessionError>(
                SessionError::NoActiveSession,
            ),
            final(self)@ == valid_record(old(self)@, daemon_alive),
            old(self).wf() ==> final(self).wf(),
    {
        match self.store.read(daemon_alive) {
            Some(session) => Ok(session.daemon_id),
            None => Err(SessionError::NoActiveSession),
        }
    }
}

} // verus!
