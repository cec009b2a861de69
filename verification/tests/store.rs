use caffeine::error::SessionError;
use caffeine::session::Session;
use caffeine::store::{SessionStore, WriteIntent};

fn timed(daemon_id: u32) -> Session {
    Session::new(1_000, Some(60), daemon_id)
}

#[test]
fn a_new_store_is_empty() {
    let mut store = SessionStore::new();
    assert_eq!(store.record(), None);
    assert_eq!(store.read(true), None);
    assert_eq!(store.read(false), None);
}

#[test]
fn from_record_holds_what_was_loaded() {
    let store = SessionStore::from_record(Some(timed(7)));
    assert_eq!(store.record(), Some(timed(7)));
    assert_eq!(SessionStore::from_record(None).record(), None);
}

#[test]
fn read_returns_the_record_of_a_live_daemon() {
    let mut store = SessionStore::from_record(Some(timed(7)));
    assert_eq!(store.read(true), Some(timed(7)));
    assert_eq!(store.record(), Some(timed(7)));
    assert_eq!(store.read(true), Some(timed(7)));
}

#[test]
fn read_heals_a_stale_record() {
    let mut store = SessionStore::from_record(Some(timed(7)));
    assert_eq!(store.read(false), None);
    assert_eq!(store.record(), None);
    assert_eq!(store.read(true), None);
}

#[test]
fn write_fills_an_empty_slot() {
    let mut store = SessionStore::new();
    assert_eq!(store.write(timed(7), WriteIntent::Start, false), Ok(()));
    assert_eq!(store.record(), Some(timed(7)));
    let mut other = SessionStore::new();
    assert_eq!(other.write(timed(8), WriteIntent::Update, true), Ok(()));
    assert_eq!(other.record(), Some(timed(8)));
}

#[test]
fn write_replaces_a_stale_record() {
    let mut store = SessionStore::from_record(Some(timed(7)));
    assert_eq!(store.write(timed(8), WriteIntent::Start, false), Ok(()));
    assert_eq!(store.record(), Some(timed(8)));
    let mut other = SessionStore::from_record(Some(timed(7)));
    assert_eq!(other.write(timed(9), WriteIntent::Update, false), Ok(()));
    assert_eq!(other.record(), Some(timed(9)));
}

#[test]
fn a_start_against_a_valid_record_is_already_active() {
    let mut store = SessionStore::from_record(Some(timed(7)));
    assert_eq!(store.write(timed(8), WriteIntent::Start, true), Err(SessionError::AlreadyActive));
    assert_eq!(store.record(), Some(timed(7)));
}

#[test]
fn any_other_write_against_a_valid_record_is_a_conflict() {
    let mut store = SessionStore::from_record(Some(timed(7)));
    assert_eq!(store.write(timed(8), WriteIntent::Update, true), Err(SessionError::Conflict));
    assert_eq!(store.record(), Some(timed(7)));
}

#[test]
fn clear_removes_the_record_of_the_expected_daemon() {
    let mut store = SessionStore::from_record(Some(timed(7)));
    assert_eq!(store.clear(7), Ok(()));
    assert_eq!(store.record(), None);
}

#[test]
fn clear_of_an_empty_slot_succeeds() {
    let mut store = SessionStore::new();
    assert_eq!(store.clear(7), Ok(()));
    assert_eq!(store.record(), None);
}

#[test]
fn clear_leaves_the_record_of_another_daemon() {
    let mut store = SessionStore::from_record(Some(timed(8)));
    assert_eq!(store.clear(7), Err(SessionError::Conflict));
    assert_eq!(store.record(), Some(timed(8)));
}

#[test]
fn a_late_clear_does_not_remove_a_newer_session() {
    let mut store = SessionStore::new();
    assert_eq!(store.write(timed(7), WriteIntent::Start, false), Ok(()));
    assert_eq!(store.read(false), None);
    assert_eq!(store.write(timed(8), WriteIntent::Start, false), Ok(()));
    assert_eq!(store.clear(7), Err(SessionError::Conflict));
    assert_eq!(store.read(true), Some(timed(8)));
}

#[test]
fn every_failure_has_its_own_description() {
    let all = [
        SessionError::AlreadyActive,
        SessionError::NoActiveSession,
        SessionError::DaemonSpawnFailed,
        SessionError::Conflict,
    ];
    assert_eq!(SessionError::AlreadyActive.describe(), "a session is already active");
    assert_eq!(SessionError::NoActiveSession.describe(), "no session is active");
    assert_eq!(
        SessionError::DaemonSpawnFailed.describe(),
        "the enforcement daemon could not be started"
    );
    assert_eq!(SessionError::Conflict.describe(), "the session store is held by another session");
    for (i, a) in all.iter().enumerate() {
        for (j, b) in all.iter().enumerate() {
            assert_eq!(a.describe() == b.describe(), i == j);
        }
    }
}
