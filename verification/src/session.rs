//! The protected session: the one record that says since when, for how long
//! and by which daemon the machine is kept awake.

use crate::text::{duration_text, format_duration, optional_text};
use vstd::prelude::*;

verus! {

/// A protected session as it is recorded. Times are whole seconds; the start
/// is counted from the Unix epoch.
#[derive(Clone, Copy, Debug, PartialEq, Eq)]
pub struct Session {
    /// When the session was created.
    pub start_time: u64,
    /// For how long the session lasts; `None` for a session without an end.
    pub session_length: Option<u64>,
    /// The enforcement daemon that holds the sleep inhibitor for it.
    pub daemon_id: u32,
}

/// Whether a requested length is one that a session may have: no length at
/// all, or a positive one.
pub open spec fn valid_length(session_length: Option<u64>) -> bool {
    session_length matches Some(length) ==> length > 0
}

impl Session {
    /// A recorded length is positive.
    pub open spec fn wf(self) -> bool {
        valid_length(self.session_length)
    }

    /// The seconds that have passed since the start when the clock reads
    /// `now`. A clock that reads earlier than the start counts as no time
    /// passed.
    pub open spec fn elapsed_at(self, now: u64) -> nat {
        if now >= self.start_time {
            (now - self.start_time) as nat
        } else {
            0
        }
    }

    /// The seconds that are left of a timed session when the clock reads
    /// `now`: the length less the elapsed time, and zero once that is used
    /// up. A session without an end has none.
    pub open spec fn remaining_at(self, now: u64) -> Option<nat> {
        match self.session_length {
            Some(length) => Some(
                if self.elapsed_at(now) >= length {
                    0
                } else {
                    (length - self.elapsed_at(now)) as nat
                },
            ),
            None => None,
        }
    }

    /// The elapsed time when the clock reads `now`, as it is shown.
    pub open spec fn elapsed_text(self, now: u64) -> Seq<char> {
        duration_text(self.elapsed_at(now))
    }

    /// The length of a timed session, as it is shown.
    pub open spec fn length_text(self) -> Option<Seq<char>> {
        match self.session_length {
            Some(length) => Some(duration_text(length as nat)),
            None => None,
        }
    }

    /// The remaining time of a timed session when the clock reads `now`, as
    /// it is shown.
    pub open spec fn remaining_text(self, now: u64) -> Option<Seq<char>> {
        match self.remaining_at(now) {
            Some(left) => Some(duration_text(left)),
            None => None,
        }
    }

    /// A session that starts at `start_time`, lasts `session_length` and
    /// belongs to the daemon `daemon_id`.
    pub fn new(start_time: u64, session_length: Option<u64>, daemon_id: u32) -> (session: Session)
        requires
            valid_length(session_length),
        ensures
            session == (Session { start_time, session_length, daemon_id }),
            session.wf(),
    {
        Session { start_time, session_length, daemon_id }
    }

    /// The seconds elapsed when the clock reads `now`.
    pub fn elapsed(&self, now: u64) -> (seconds: u64)
        ensures
            seconds == self.elapsed_at(now),
    {
        if now >= self.start_time {
            now - self.start_time
        } else {
            0
        }
    }

    /// The seconds remaining when the clock reads `now`, never below zero.
    pub fn remaining(&self, now: u64) -> (seconds: Option<u64>)
        ensures
            match seconds {
                Some(left) => self.remaining_at(now) == Some(left as nat),
                None => self.remaining_at(now) is None,
            },
    {
        match self.session_length {
            Some(length) => {
                let elapsed = self.elapsed(now);
                if elapsed >= length {
                    Some(0)
                } else {
                    Some(length - elapsed)
                }
            },
            None => None,
        }
    }

    /// The elapsed time when the clock reads `now`, for people.
    pub fn get_elapsed_time(&self, now: u64) -> (text: String)
        ensures
            text@ == self.elapsed_text(now),
    {
        format_duration(self.elapsed(now))
    }

    /// The session's length for people; `None` for a session without an end.
    pub fn get_session_length(&self) -> (text: Option<String>)
        ensures
            optional_text(text) == self.length_text(),
    {
        match self.session_length {
            Some(length) => Some(format_duration(length)),
            None => None,
        }
    }

    /// The remaining time when the clock reads `now`, for people; `None` for
    /// a session without an end.
    pub fn get_remaining_time(&self, now: u64) -> (text: Option<String>)
        ensures
            optional_text(text) == self.remaining_text(now),
    {
        match self.remaining(now) {
            Some(left) => Some(format_duration(left)),
            None => None,
        }
    }
}

} // verus!
