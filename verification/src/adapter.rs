//! The caller adapter: what a launcher request means for the session
//! manager, and what the launcher is given to show. Reading the request and
//! sending the answer is the caller's part.

use crate::session::{valid_length, Session};
use crate::text::{optional_text, parse_u64, parsed_u64, same_text, texts};
use vstd::prelude::*;

verus! {

/// The name under which the launcher knows this extension.
pub const EXTENSION_ID: &'static str = "caffeine";

/// What a run-action request asks of the session manager.
#[derive(Clone, Copy, Debug, PartialEq, Eq)]
pub enum Command {
    /// Start a session of this length; `None` for one without an end.
    Start { session_length: Option<u64> },
    /// End the current session.
    End,
    /// Nothing: the action is not one of this extension.
    Ignore,
}

/// Why the argument of a timed start was turned down.
#[derive(Clone, Copy, Debug, PartialEq, Eq)]
pub enum InputError {
    /// The action came without an argument.
    MissingArgument,
    /// The argument is not a count of minutes that fits in 64 bits.
    NotANumber,
    /// The argument is zero.
    NotPositive,
    /// So many minutes are more seconds than fit in 64 bits.
    TooLong,
}

/// The command for a timed start whose arguments are `args`: the first one
/// is a positive count of minutes, and the session lasts sixty times as many
/// seconds. Further arguments are not looked at.
pub open spec fn timed_start_for(args: Seq<Seq<char>>) -> Result<Command, InputError> {
    if args.len() == 0 {
        Err(InputError::MissingArgument)
    } else {
        match parsed_u64(args[0]) {
            None => Err(InputError::NotANumber),
            Some(minutes) => if minutes == 0 {
                Err(InputError::NotPositive)
            } else if minutes * 60 > u64::MAX {
                Err(InputError::TooLong)
            } else {
                Ok(Command::Start { session_length: Some((minutes * 60) as u64) })
            },
        }
    }
}

/// The command that the action `action` with the arguments `args` stands
/// for. `start` and `disable` take no arguments and ignore any they get.
pub open spec fn command_for(action: Seq<char>, args: Seq<Seq<char>>) -> Result<
    Command,
    InputError,
> {
    if action == "start"@ {
        Ok(Command::Start { session_length: None })
    } else if action == "start-timed"@ {
        timed_start_for(args)
    } else if action == "disable"@ {
        Ok(Command::End)
    } else {
        Ok(Command::Ignore)
    }
}

/// Reads a run-action request, as `command_for` says. A timed start with a
/// bad argument is turned down here, before anything is launched; every
/// length that comes out is positive.
pub fn parse_action(action: &str, args: &Vec<String>) -> (command: Result<Command, InputError>)
    ensures
        command == command_for(action@, texts(args@)),
        command matches Ok(Command::Start { session_length }) ==> valid_length(session_length),
{
    if same_text(action, "start") {
        Ok(Command::Start { session_length: None })
    } else if same_text(action, "start-timed") {
        if args.len() == 0 {
            return Err(InputError::MissingArgument);
        }
        assert(texts(args@)[0] == args@[0]@);
        match parse_u64(args[0].as_str()) {
            None => Err(InputError::NotANumber),
            Some(minutes) => {
                if minutes == 0 {
                    Err(InputError::NotPositive)
                } else {
                    match minutes.checked_mul(60) {
                        Some(seconds) => Ok(Command::Start { session_length: Some(seconds) }),
                        None => Err(InputError::TooLong),
                    }
                }
            },
        }
    } else if same_text(action, "disable") {
        Ok(Command::End)
    } else {
        Ok(Command::Ignore)
    }
}

/// What selecting a result entry runs: an action of this extension and its
/// arguments.
#[derive(Clone, Debug, PartialEq, Eq)]
pub struct BoundAction {
    pub action: String,
    pub args: Vec<String>,
}

/// A bound action as plain text.
pub struct BoundActionView {
    pub action: Seq<char>,
    pub args: Seq<Seq<char>>,
}

impl View for BoundAction {
    type V = BoundActionView;

    open spec fn view(&self) -> BoundActionView {
        BoundActionView { action: self.action@, args: texts(self.args@) }
    }
}

/// One entry of the list that the launcher shows. The icon is named, not
/// located: the caller resolves the name to a file.
#[derive(Clone, Debug, PartialEq, Eq)]
pub struct ResultEntry {
    pub title: String,
    pub description: Option<String>,
    pub icon: Option<String>,
    pub icon_color: Option<String>,
    pub action: Option<BoundAction>,
}

/// A result entry as plain text.
pub struct ResultEntryView {
    pub title: Seq<char>,
    pub description: Option<Seq<char>>,
    pub icon: Option<Seq<char>>,
    pub icon_color: Option<Seq<char>>,
    pub action: Option<BoundActionView>,
}

impl View for ResultEntry {
    type V = ResultEntryView;

    open spec fn view(&self) -> ResultEntryView {
        ResultEntryView {
            title: self.title@,
            description: optional_text(self.description),
            icon: optional_text(self.icon),
            icon_color: optional_text(self.icon_color),
            action: match self.action {
                Some(action) => Some(action@),
                None => None,
            },
        }
    }
}

/// The entries of a list, each as plain text.
pub open spec fn entry_views(entries: Seq<ResultEntry>) -> Seq<ResultEntryView> {
    entries.map_values(|entry: ResultEntry| entry@)
}

/// An entry in the accent colour, which is the only one in use.
pub open spec fn entry(
    title: Seq<char>,
    description: Option<Seq<char>>,
    icon: Seq<char>,
    action: Option<BoundActionView>,
) -> ResultEntryView {
    ResultEntryView { title, description, icon: Some(icon), icon_color: Some("accent"@), action }
}

/// The entry that ends the session.
pub open spec fn disable_entry() -> ResultEntryView {
    entry(
        "Disable Caffeine Session"@,
        None,
        "sleep"@,
        Some(BoundActionView { action: "disable"@, args: seq![] }),
    )
}

/// The entry that shows for how long `session` has run at `now`.
pub open spec fn elapsed_entry(session: Session, now: u64) -> ResultEntryView {
    entry("Ellapsed Time"@, Some(session.elapsed_text(now)), "clock"@, None)
}

/// The entry that shows how long `session` lasts.
pub open spec fn length_entry(session: Session) -> ResultEntryView {
    entry("Session Length"@, session.length_text(), "clock"@, None)
}

/// The entry that shows how much of `session` is left at `now`.
pub open spec fn remaining_entry(session: Session, now: u64) -> ResultEntryView {
    entry("Remaining Time"@, session.remaining_text(now), "flag"@, None)
}

/// The entry that starts a session of as many minutes as `search_text`
/// says.
pub open spec fn timed_entry(search_text: Seq<char>) -> ResultEntryView {
    entry(
        "Timed Caffeine Session"@,
        Some("Start a caffeine session with "@ + search_text + " minutes"@),
        "coffee"@,
        Some(BoundActionView { action: "start-timed"@, args: seq![search_text] }),
    )
}

/// The entry that starts a session without an end.
pub open spec fn start_entry() -> ResultEntryView {
    entry(
        "Start Caffeine Session"@,
        None,
        "coffee"@,
        Some(BoundActionView { action: "start"@, args: seq![] }),
    )
}

/// What the launcher shows for the text `search_text` while the status is
/// `status` and the clock reads `now`.
///
/// While a session is active: the entry that ends it and its elapsed time,
/// and for a timed session its length and its remaining time. Else one
/// entry that starts a session: a timed one where the text reads as a count
/// of minutes, and one without an end for any other text.
pub open spec fn results_for(status: Option<Session>, now: u64, search_text: Seq<char>) -> Seq<
    ResultEntryView,
> {
    match status {
        Some(session) => if session.session_length is Some {
            seq![
                disable_entry(),
                elapsed_entry(session, now),
                length_entry(session),
                remaining_entry(session, now),
            ]
        } else {
            seq![disable_entry(), elapsed_entry(session, now)]
        },
        None => if parsed_u64(search_text) is Some {
            seq![timed_entry(search_text)]
        } else {
            seq![start_entry()]
        },
    }
}

fn make_entry(
    title: &str,
    description: Option<String>,
    icon: &str,
    action: Option<BoundAction>,
) -> (made: ResultEntry)
    ensures
        made@ == entry(
            title@,
            optional_text(description),
            icon@,
            match action {
                Some(action) => Some(action@),
                None => None,
            },
        ),
{
    ResultEntry {
        title: String::from_str(title),
        description,
        icon: Some(String::from_str(icon)),
        icon_color: Some(String::from_str("accent")),
        action,
    }
}

fn make_action(action: &str, arg: Option<&str>) -> (made: BoundAction)
    ensures
        made@.action == action@,
        made@.args == match arg {
            Some(arg) => seq![arg@],
            None => seq![],
        },
{
    let mut args: Vec<String> = Vec::new();
    match arg {
        Some(arg) => {
            args.push(String::from_str(arg));
            assert(texts(args@) =~= seq![arg@]);
        },
        None => {
            assert(texts(args@) =~= seq![]);
        },
    }
    BoundAction { action: String::from_str(action), args }
}

/// Answers a query-results request, as `results_for` says. `status` is what
/// the session manager reported and `now` what the clock reads.
pub fn query_results(status: Option<Session>, now: u64, search_text: &str) -> (entries: Vec<
    ResultEntry,
>)
    ensures
        entry_views(entries@) == results_for(status, now, search_text@),
{
    let mut entries: Vec<ResultEntry> = Vec::new();
    match status {
        Some(session) => {
            entries.push(
                make_entry(
                    "Disable Caffeine Session",
                    None,
                    "sleep",
                    Some(make_action("disable", None)),
                ),
            );
            entries.push(
                make_entry("Ellapsed Time", Some(session.get_elapsed_time(now)), "clock", None),
            );
            if session.session_length.is_some() {
                entries.push(make_entry("Session Length", session.get_session_length(), "clock", None));
                entries.push(
                    make_entry("Remaining Time", session.get_remaining_time(now), "flag", None),
                );
            }
        },
        None => {
            if parse_u64(search_text).is_some() {
                let description = String::from_str("Start a caffeine session with ").concat(
                    search_text,
                ).concat(" minutes");
                entries.push(
                    make_entry(
                        "Timed Caffeine Session",
                        Some(description),
                        "coffee",
                        Some(make_action("start-timed", Some(search_text))),
                    ),
                );
            } else {
                entries.push(
                    make_entry(
                        "Start Caffeine Session",
                        None,
                        "coffee",
                        Some(make_action("start", None)),
                    ),
                );
            }
        },
    }
    assert(entry_views(entries@) =~= results_for(status, now, search_text@));
    entries
}

/// A desktop notification.
#[derive(Clone, Debug, PartialEq, Eq)]
pub struct Notification {
    pub title: String,
    pub message: String,
}

/// The title and the message of the notification that follows `command`: one
/// for a start and one for an end that succeeded. A failure is passed over in
/// silence, and so is the command that was ignored.
pub open spec fn notification_text(command: Command, succeeded: bool) -> Option<
    (Seq<char>, Seq<char>),
> {
    if !succeeded {
        None
    } else {
        match command {
            Command::Start { .. } => Some(("Caffeine"@, "☕ Session started"@)),
            Command::End => Some(("Caffeine"@, "😴 Session disabled"@)),
            Command::Ignore => None,
        }
    }
}

/// The notification to show once `command` was carried out, as
/// `notification_text` says.
pub fn notification_for(command: Command, succeeded: bool) -> (notification: Option<Notification>)
    ensures
        match notification {
            Some(shown) => notification_text(command, succeeded) == Some(
                (shown.title@, shown.message@),
            ),
            None => notification_text(command, succeeded) is None,
        },
{
    if !succeeded {
        return None;
    }
    match command {
        Command::Start { .. } => Some(
            Notification {
                title: String::from_str("Caffeine"),
                message: String::from_str("☕ Session started"),
            },
        ),
        Command::End => Some(
            Notification {
                title: String::from_str("Caffeine"),
                message: String::from_str("😴 Session disabled"),
            },
        ),
        Command::Ignore => None,
    }
}

} // verus!
