//! The session store: one slot that holds the record of the current session,
//! or nothing. Every caller loads the slot, applies one operation and saves
//! what the operation left.

use crate::error::SessionError;
use crate::session::Session;
use vstd::prelude::*;

verus! {

/// Why a caller writes to the store.
#[derive(Clone, Copy, Debug, PartialEq, Eq)]
pub enum WriteIntent {
    /// The caller is starting a session.
    Start,
    /// The caller writes for any other reason.
    Update,
}

/// The record that counts as the current session: the one in the slot while
/// its daemon is alive. A record whose daemon is gone is stale and counts as
/// absent.
pub open spec fn valid_record(slot: Option<Session>, daemon_alive: bool) -> Option<Session> {
    if daemon_alive {
        slot
    } else {
        None
    }
}

/// What a write reports: it goes through unless a valid record is in the
/// way. Against a valid record a start fails as already active, any other
/// write as a conflict.
pub open spec fn write_result(
    slot: Option<Session>,
    intent: WriteIntent,
    daemon_alive: bool,
) -> Result<(), SessionError> {
    if valid_record(slot, daemon_alive) is Some {
        match intent {
            WriteIntent::Start => Err(SessionError::AlreadyActive),
            WriteIntent::Update => Err(SessionError::Conflict),
        }
    } else {
        Ok(())
    }
}

/// What the slot holds after a write: the new record where the write went
/// through, else what it held before.
pub open spec fn slot_after_write(
    slot: Option<Session>,
    session: Session,
    daemon_alive: bool,
) -> Option<Session> {
    if valid_record(slot, daemon_alive) is Some {
        slot
    } else {
        Some(session)
    }
}

/// What a clear reports: a conflict where the slot holds the record of
/// another daemon, success otherwise.
pub open spec fn clear_result(slot: Option<Session>, expected_daemon_id: u32) -> Result<
    (),
    SessionError,
> {
    match slot {
        Some(session) if session.daemon_id != expected_daemon_id => Err(SessionError::Conflict),
        _ => Ok(()),
    }
}

/// What the slot holds after a clear: the record of another daemon stays,
/// everything else goes.
pub open spec fn slot_after_clear(slot: Option<Session>, expected_daemon_id: u32) -> Option<
    Session,
> {
    match slot {
        Some(session) if session.daemon_id != expected_daemon_id => slot,
        _ => None,
    }
}

/// The single slot. Its view is the record it holds.
#[derive(Clone, Copy, Debug, PartialEq, Eq)]
pub struct SessionStore {
    slot: Option<Session>,
}

impl View for SessionStore {
    type V = Option<Session>;

    closed spec fn view(&self) -> Option<Session> {
        self.slot
    }
}

impl SessionStore {
    /// The record in the slot, if there is one, is well formed.
    pub open spec fn wf(&self) -> bool {
        self@ matches Some(session) ==> session.wf()
    }

    /// A store with nothing in its slot.
    pub fn new() -> (store: SessionStore)
        ensures
            store@ is None,
            store.wf(),
    {
        SessionStore { slot: None }
    }

    /// A store whose slot holds what was loaded from where it is kept.
    pub fn from_record(record: Option<Session>) -> (store: SessionStore)
        ensures
            store@ == record,
    {
        SessionStore { slot: record }
    }

    /// What the slot holds as it stands, stale or not: what has to be saved
    /// once an operation is done.
    pub fn record(&self) -> (record: Option<Session>)
        ensures
            record == self@,
    {
        self.slot
    }

    /// The current session. `daemon_alive` says whether the daemon that the
    /// stored record names is alive; it is not looked at while the slot is
    /// empty. A stale record is removed and reported as absent.
    pub fn read(&mut self, daemon_alive: bool) -> (found: Option<Session>)
        ensures
            found == valid_record(old(self)@, daemon_alive),
            final(self)@ == found,
            old(self).wf() ==> final(self).wf(),
    {
        if !daemon_alive {
            self.slot = None;
        }
        self.slot
    }

    /// Puts `session` into the slot in one step, unless a valid record is in
    /// the way: then the slot stays as it is, and the write fails as
    /// `write_result` says. A stale record is no obstacle.
    pub fn write(&mut self, session: Session, intent: WriteIntent, daemon_alive: bool) -> (result:
        Result<(), SessionError>)
        requires
            session.wf(),
        ensures
            result == write_result(old(self)@, intent, daemon_alive),
            final(self)@ == slot_after_write(old(self)@, session, daemon_alive),
            old(self).wf() ==> final(self).wf(),
    {
        if daemon_alive && self.slot.is_some() {
            match intent {
                WriteIntent::Start => Err(SessionError::AlreadyActive),
                WriteIntent::Update => Err(SessionError::Conflict),
            }
        } else {
            self.slot = Some(session);
            Ok(())
        }
    }

    /// Empties the slot if it holds the record of the daemon
    /// `expected_daemon_id`. An empty slot stays empty, which is a success
    /// too. The record of another daemon stays, and the clear fails with a
    /// conflict.
    pub fn clear(&mut self, expected_daemon_id: u32) -> (result: Result<(), SessionError>)
        ensures
            result == clear_result(old(self)@, expected_daemon_id),
            final(self)@ == slot_after_clear(old(self)@, expected_daemon_id),
            old(self).wf() ==> final(self).wf(),
    {
        match self.slot {
            Some(session) => {
                if session.daemon_id == expected_daemon_id {
                    self.slot = None;
                    Ok(())
                } else {
                    Err(SessionError::Conflict)
                }
            },
            None => Ok(()),
        }
    }
}

} // verus!
