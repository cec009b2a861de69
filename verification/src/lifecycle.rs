//! What holds of a session over its whole life, across the manager, the
//! store and the daemon.

use crate::daemon::{action_for, next_state, DaemonAction, DaemonEvent, DaemonState, EXIT_CLEAN};
use crate::error::SessionError;
use crate::manager::{
    end_result, handshake, slot_after_start, start_decision, start_report, started_session,
    Handshake, SpawnOutcome, SpawnRequest, StartReport,
};
use crate::session::{valid_length, Session};
use crate::store::{clear_result, slot_after_clear, valid_record};
use vstd::prelude::*;

verus! {

/// One caller's start that got as far as a confirmed daemon: what it asked
/// for, the daemon that confirmed, and what the clock read when it came to
/// record the session.
pub struct StartAttempt {
    pub request: SpawnRequest,
    pub daemon_id: u32,
    pub now: u64,
}

impl StartAttempt {
    /// How the launch went for this attempt: the daemon confirmed.
    pub open spec fn outcome(self) -> SpawnOutcome {
        SpawnOutcome::Confirmed { daemon_id: self.daemon_id }
    }

    /// The session that this attempt records if it gets through.
    pub open spec fn session(self) -> Session {
        started_session(self.request, self.daemon_id, self.now)
    }
}

/// What the slot holds after the starts `attempts` have come to record their
/// sessions one after the other, in this order. `daemon_alive` says whether
/// the daemon of the record that is in the slot at the outset is alive; the
/// daemon of every session that gets recorded stays alive throughout.
pub open spec fn slot_after_starts(
    slot: Option<Session>,
    daemon_alive: bool,
    attempts: Seq<StartAttempt>,
) -> Option<Session>
    decreases attempts.len(),
{
    if attempts.len() == 0 {
        slot
    } else {
        let first = attempts[0];
        slot_after_starts(
            slot_after_start(slot, first.request, first.outcome(), first.now, daemon_alive),
            true,
            attempts.drop_first(),
        )
    }
}

/// How many of the starts `attempts` got their session recorded.
pub open spec fn starts_won(
    slot: Option<Session>,
    daemon_alive: bool,
    attempts: Seq<StartAttempt>,
) -> nat
    decreases attempts.len(),
{
    if attempts.len() == 0 {
        0
    } else {
        let first = attempts[0];
        let won: nat = if start_report(
            slot,
            first.request,
            first.outcome(),
            first.now,
            daemon_alive,
        ).result is Ok {
            1
        } else {
            0
        };
        won + starts_won(
            slot_after_start(slot, first.request, first.outcome(), first.now, daemon_alive),
            true,
            attempts.drop_first(),
        )
    }
}

/// A timed session that has just been started is reported with the length it
/// was asked for. What is reported as remaining is the length less the time
/// since the start, and nothing once that time exceeds the length: it falls
/// short of the length by no more than the time that has passed, and not at
/// all when no time has passed.
pub proof fn law_timed_start_then_status(
    slot: Option<Session>,
    daemon_alive: bool,
    length: u64,
    daemon_id: u32,
    started: u64,
    now: u64,
)
    requires
        length > 0,
        valid_record(slot, daemon_alive) is None,
        started <= now,
    ensures
        ({
            let request = SpawnRequest { session_length: Some(length) };
            let outcome = SpawnOutcome::Confirmed { daemon_id };
            let report = start_report(slot, request, outcome, started, daemon_alive);
            let status = valid_record(
                slot_after_start(slot, request, outcome, started, daemon_alive),
                true,
            );
            &&& start_decision(slot, Some(length), daemon_alive) == Ok::<
                SpawnRequest,
                SessionError,
            >(request)
            &&& status matches Some(session)
            &&& report == (StartReport { result: Ok(session), terminate: None })
            &&& session.session_length == Some(length)
            &&& session.remaining_at(started) == Some(length as nat)
            &&& session.remaining_at(now) matches Some(left)
            &&& left == if now - started >= length {
                0
            } else {
                length - (now - started)
            }
            &&& length - left <= now - started
        }),
{
}

/// While a valid session exists every start fails with `AlreadyActive`, at
/// the first half and at the second, and leaves the record as it is; a
/// daemon that was launched all the same has to be terminated.
pub proof fn law_start_while_active_fails(
    active: Session,
    session_length: Option<u64>,
    outcome: SpawnOutcome,
    now: u64,
)
    ensures
        ({
            let request = SpawnRequest { session_length };
            &&& start_decision(Some(active), session_length, true) == Err::<
                SpawnRequest,
                SessionError,
            >(SessionError::AlreadyActive)
            &&& outcome matches SpawnOutcome::Confirmed { daemon_id } ==> start_report(
                Some(active),
                request,
                outcome,
                now,
                true,
            ) == (StartReport {
                result: Err(SessionError::AlreadyActive),
                terminate: Some(daemon_id),
            })
            &&& start_report(Some(active), request, outcome, now, true).result is Err
            &&& slot_after_start(Some(active), request, outcome, now, true) == Some(active)
        }),
{
}

/// However many starts race for the slot, at most one wins. Where no valid
/// session was in the slot, exactly one does: the first that comes to
/// record its session, and its session is the one that stays. Where a valid
/// session was there, none wins and that session stays.
pub proof fn law_exactly_one_start_wins(
    slot: Option<Session>,
    daemon_alive: bool,
    attempts: Seq<StartAttempt>,
)
    requires
        attempts.len() > 0,
    ensures
        valid_record(slot, daemon_alive) is None ==> {
            &&& starts_won(slot, daemon_alive, attempts) == 1
            &&& slot_after_starts(slot, daemon_alive, attempts) == Some(attempts[0].session())
        },
        valid_record(slot, daemon_alive) is Some ==> {
            &&& starts_won(slot, daemon_alive, attempts) == 0
            &&& slot_after_starts(slot, daemon_alive, attempts) == slot
        },
    decreases attempts.len(),
{
    let first = attempts[0];
    let rest = attempts.drop_first();
    let next = slot_after_start(slot, first.request, first.outcome(), first.now, daemon_alive);
    if rest.len() > 0 {
        law_exactly_one_start_wins(next, true, rest);
    } else {
        assert(starts_won(next, true, rest) == 0);
        assert(slot_after_starts(next, true, rest) == next);
    }
}

/// A start whose daemon never confirms fails with `DaemonSpawnFailed` once
/// the wait is over, whether the daemon could not be launched or ran out of
/// time. Nothing is recorded, and the daemon that was launched, if any, is
/// the one to terminate.
pub proof fn law_unconfirmed_start_fails(
    slot: Option<Session>,
    daemon_alive: bool,
    request: SpawnRequest,
    launched: Option<u32>,
    waited: u64,
    timeout: u64,
    now: u64,
)
    requires
        launched is None || waited >= timeout,
    ensures
        handshake(launched, false, waited, timeout) matches Handshake::Settled(outcome)
            && start_report(slot, request, outcome, now, daemon_alive) == (StartReport {
            result: Err(SessionError::DaemonSpawnFailed),
            terminate: launched,
        }) && slot_after_start(slot, request, outcome, now, daemon_alive) == slot,
{
}

/// An end with no session active fails with `NoActiveSession`, whether the
/// slot is empty or holds a stale record.
pub proof fn law_end_without_session_fails(slot: Option<Session>, daemon_alive: bool)
    requires
        valid_record(slot, daemon_alive) is None,
    ensures
        end_result(slot, daemon_alive) == Err::<u32, SessionError>(SessionError::NoActiveSession),
{
}

/// A timed session ends by itself. Its daemon arms a timer of the session's
/// length when it gets the inhibitor; when the timer fires the daemon
/// releases the inhibitor and clears its own record, and then exits
/// cleanly. From the clearing on the status is absent, though nobody asked
/// for the end.
pub proof fn law_expiry_clears_session(session: Session, daemon_alive: bool)
    requires
        session.session_length is Some,
    ensures
        ({
            let id = session.daemon_id;
            let length = session.session_length;
            &&& action_for(id, DaemonState::Starting, length, DaemonEvent::InhibitorAcquired) == (
            DaemonAction::ArmTimer { seconds: length->0 })
            &&& next_state(DaemonState::Starting, length, DaemonEvent::InhibitorAcquired)
                == DaemonState::Holding
            &&& action_for(id, DaemonState::Holding, length, DaemonEvent::TimerFired) == (
            DaemonAction::ReleaseAndClear { daemon_id: id })
            &&& next_state(DaemonState::Holding, length, DaemonEvent::TimerFired)
                == DaemonState::ExpiredCleanup
            &&& clear_result(Some(session), id) == Ok::<(), SessionError>(())
            &&& valid_record(slot_after_clear(Some(session), id), daemon_alive) is None
            &&& action_for(id, DaemonState::ExpiredCleanup, length, DaemonEvent::CleanupFinished)
                == (DaemonAction::Exit { code: EXIT_CLEAN })
            &&& next_state(DaemonState::ExpiredCleanup, length, DaemonEvent::CleanupFinished)
                == DaemonState::Terminated
        }),
{
}

/// A session whose daemon is gone is not reported: whatever the slot holds,
/// the status is absent once the daemon is found dead.
pub proof fn law_dead_daemon_means_absent(slot: Option<Session>)
    ensures
        valid_record(slot, false) is None,
{
}

/// A session without an end that has just been started is reported with no
/// length and no remaining time, and its elapsed time never goes down from
/// one query to a later one.
pub proof fn law_unbounded_start_then_status(
    slot: Option<Session>,
    daemon_alive: bool,
    daemon_id: u32,
    started: u64,
    earlier: u64,
    later: u64,
)
    requires
        valid_record(slot, daemon_alive) is None,
        earlier <= later,
    ensures
        ({
            let request = SpawnRequest { session_length: None };
            let outcome = SpawnOutcome::Confirmed { daemon_id };
            let status = valid_record(
                slot_after_start(slot, request, outcome, started, daemon_alive),
                true,
            );
            &&& status matches Some(session)
            &&& start_report(slot, request, outcome, started, daemon_alive).result == Ok::<
                Session,
                SessionError,
            >(session)
            &&& session.session_length is None
            &&& session.remaining_at(later) is None
            &&& session.elapsed_at(earlier) <= session.elapsed_at(later)
        }),
{
}

/// The elapsed time of any session never goes down as the clock goes on, and
/// the remaining time of a timed one never goes up.
pub proof fn law_time_runs_one_way(session: Session, earlier: u64, later: u64)
    requires
        earlier <= later,
    ensures
        session.elapsed_at(earlier) <= session.elapsed_at(later),
        session.session_length is Some ==> session.remaining_at(later)->0 <= session.remaining_at(
            earlier,
        )->0,
{
}

/// What a start records begins at the time that the clock read and has the
/// length that was asked for, which is positive where there is one; and a
/// start leaves a well-formed record in the slot well formed.
pub proof fn law_recorded_length_is_valid(
    slot: Option<Session>,
    request: SpawnRequest,
    outcome: SpawnOutcome,
    now: u64,
    daemon_alive: bool,
)
    requires
        valid_length(request.session_length),
        slot matches Some(session) ==> session.wf(),
    ensures
        slot_after_start(slot, request, outcome, now, daemon_alive) matches Some(session)
            ==> session.wf(),
        start_report(slot, request, outcome, now, daemon_alive).result matches Ok(session)
            ==> session.wf() && session.session_length == request.session_length
            && session.start_time == now,
{
}

} // verus!
