use caffeine::adapter::{
    notification_for, parse_action, query_results, BoundAction, Command, InputError, Notification,
    ResultEntry, EXTENSION_ID,
};
use caffeine::icons::get_icon;
use caffeine::session::Session;

fn args(list: &[&str]) -> Vec<String> {
    list.iter().map(|arg| String::from(*arg)).collect()
}

fn text(value: &str) -> Option<String> {
    Some(String::from(value))
}

fn bound(action: &str, list: &[&str]) -> Option<BoundAction> {
    Some(BoundAction { action: String::from(action), args: args(list) })
}

#[test]
fn the_extension_is_known_as_caffeine() {
    assert_eq!(EXTENSION_ID, "caffeine");
}

#[test]
fn start_means_a_session_without_an_end() {
    assert_eq!(parse_action("start", &args(&[])), Ok(Command::Start { session_length: None }));
    assert_eq!(
        parse_action("start", &args(&["5", "x"])),
        Ok(Command::Start { session_length: None })
    );
}

#[test]
fn start_timed_takes_minutes_and_gives_seconds() {
    assert_eq!(
        parse_action("start-timed", &args(&["1"])),
        Ok(Command::Start { session_length: Some(60) })
    );
    assert_eq!(
        parse_action("start-timed", &args(&["25"])),
        Ok(Command::Start { session_length: Some(1_500) })
    );
    assert_eq!(
        parse_action("start-timed", &args(&["+90"])),
        Ok(Command::Start { session_length: Some(5_400) })
    );
    assert_eq!(
        parse_action("start-timed", &args(&["010", "ignored"])),
        Ok(Command::Start { session_length: Some(600) })
    );
}

#[test]
fn disable_means_end() {
    assert_eq!(parse_action("disable", &args(&[])), Ok(Command::End));
    assert_eq!(parse_action("disable", &args(&["now"])), Ok(Command::End));
}

#[test]
fn other_actions_are_ignored() {
    for action in ["", "Start", "start ", "enable", "start_timed", "disabled", "stop"] {
        assert_eq!(parse_action(action, &args(&["5"])), Ok(Command::Ignore), "for {:?}", action);
    }
}

#[test]
fn a_timed_start_without_an_argument_is_turned_down() {
    assert_eq!(parse_action("start-timed", &args(&[])), Err(InputError::MissingArgument));
}

#[test]
fn a_timed_start_with_no_number_is_turned_down() {
    for bad in ["", "abc", "-5", "5.5", " 5", "5 ", "5m", "18446744073709551616"] {
        assert_eq!(
            parse_action("start-timed", &args(&[bad])),
            Err(InputError::NotANumber),
            "for {:?}",
            bad
        );
    }
}

#[test]
fn a_timed_start_of_zero_minutes_is_turned_down() {
    assert_eq!(parse_action("start-timed", &args(&["0"])), Err(InputError::NotPositive));
    assert_eq!(parse_action("start-timed", &args(&["000"])), Err(InputError::NotPositive));
    assert_eq!(parse_action("start-timed", &args(&["+0"])), Err(InputError::NotPositive));
}

#[test]
fn a_timed_start_of_too_many_minutes_is_turned_down() {
    let most = u64::MAX / 60;
    assert_eq!(
        parse_action("start-timed", &args(&[&most.to_string()])),
        Ok(Command::Start { session_length: Some(most * 60) })
    );
    assert_eq!(
        parse_action("start-timed", &args(&[&(most + 1).to_string()])),
        Err(InputError::TooLong)
    );
    assert_eq!(
        parse_action("start-timed", &args(&["18446744073709551615"])),
        Err(InputError::TooLong)
    );
}

#[test]
fn with_no_session_and_no_number_a_plain_start_is_offered() {
    let expected = vec![ResultEntry {
        title: String::from("Start Caffeine Session"),
        description: None,
        icon: text("coffee"),
        icon_color: text("accent"),
        action: bound("start", &[]),
    }];
    for search_text in ["", "   ", "coffee", " 5", "5 ", "-5", "5m", "99999999999999999999"] {
        assert_eq!(query_results(None, 1_000, search_text), expected, "for {:?}", search_text);
    }
}

#[test]
fn with_no_session_and_a_number_a_timed_start_is_offered() {
    assert_eq!(
        query_results(None, 1_000, "25"),
        vec![ResultEntry {
            title: String::from("Timed Caffeine Session"),
            description: text("Start a caffeine session with 25 minutes"),
            icon: text("coffee"),
            icon_color: text("accent"),
            action: bound("start-timed", &["25"]),
        }]
    );
    assert_eq!(
        query_results(None, 0, "+7"),
        vec![ResultEntry {
            title: String::from("Timed Caffeine Session"),
            description: text("Start a caffeine session with +7 minutes"),
            icon: text("coffee"),
            icon_color: text("accent"),
            action: bound("start-timed", &["+7"]),
        }]
    );
}

#[test]
fn the_action_that_is_offered_is_one_that_is_understood() {
    for search_text in ["", "12", "x"] {
        for entry in query_results(None, 0, search_text) {
            let action = entry.action.expect("a start entry runs an action");
            let command = parse_action(&action.action, &action.args);
            assert!(matches!(command, Ok(Command::Start { .. })));
        }
    }
    let active = Session::new(0, None, 1);
    let entries = query_results(Some(active), 5, "");
    let action = entries[0].action.clone().expect("the first entry ends the session");
    assert_eq!(parse_action(&action.action, &action.args), Ok(Command::End));
}

#[test]
fn an_unbounded_session_shows_how_to_end_it_and_its_elapsed_time() {
    let session = Session::new(1_000, None, 7);
    assert_eq!(
        query_results(Some(session), 1_750, "25"),
        vec![
            ResultEntry {
                title: String::from("Disable Caffeine Session"),
                description: None,
                icon: text("sleep"),
                icon_color: text("accent"),
                action: bound("disable", &[]),
            },
            ResultEntry {
                title: String::from("Ellapsed Time"),
                description: text("12m 30s"),
                icon: text("clock"),
                icon_color: text("accent"),
                action: None,
            },
        ]
    );
}

#[test]
fn a_timed_session_shows_its_length_and_what_is_left() {
    let session = Session::new(1_000, Some(3_600), 7);
    assert_eq!(
        query_results(Some(session), 1_750, ""),
        vec![
            ResultEntry {
                title: String::from("Disable Caffeine Session"),
                description: None,
                icon: text("sleep"),
                icon_color: text("accent"),
                action: bound("disable", &[]),
            },
            ResultEntry {
                title: String::from("Ellapsed Time"),
                description: text("12m 30s"),
                icon: text("clock"),
                icon_color: text("accent"),
                action: None,
            },
            ResultEntry {
                title: String::from("Session Length"),
                description: text("1h 0m 0s"),
                icon: text("clock"),
                icon_color: text("accent"),
                action: None,
            },
            ResultEntry {
                title: String::from("Remaining Time"),
                description: text("47m 30s"),
                icon: text("flag"),
                icon_color: text("accent"),
                action: None,
            },
        ]
    );
}

#[test]
fn a_session_past_its_end_shows_nothing_remaining() {
    let session = Session::new(0, Some(60), 7);
    let entries = query_results(Some(session), 65, "");
    assert_eq!(entries.len(), 4);
    assert_eq!(entries[1].description, text("1m 5s"));
    assert_eq!(entries[2].description, text("1m 0s"));
    assert_eq!(entries[3].description, text("0s"));
}

#[test]
fn a_start_that_succeeded_is_announced() {
    let expected = Some(Notification {
        title: String::from("Caffeine"),
        message: String::from("☕ Session started"),
    });
    assert_eq!(notification_for(Command::Start { session_length: None }, true), expected);
    assert_eq!(notification_for(Command::Start { session_length: Some(60) }, true), expected);
}

#[test]
fn an_end_that_succeeded_is_announced() {
    assert_eq!(
        notification_for(Command::End, true),
        Some(Notification {
            title: String::from("Caffeine"),
            message: String::from("😴 Session disabled"),
        })
    );
}

#[test]
fn failures_and_ignored_actions_are_passed_over_in_silence() {
    assert_eq!(notification_for(Command::Start { session_length: None }, false), None);
    assert_eq!(notification_for(Command::Start { session_length: Some(60) }, false), None);
    assert_eq!(notification_for(Command::End, false), None);
    assert_eq!(notification_for(Command::Ignore, false), None);
    assert_eq!(notification_for(Command::Ignore, true), None);
}

#[test]
fn icons_lie_below_the_extension() {
    assert_eq!(get_icon("sleep"), "src/icons/sleep.svg");
    assert_eq!(get_icon("clock"), "src/icons/clock.svg");
    assert_eq!(get_icon("flag"), "src/icons/flag.svg");
    assert_eq!(get_icon("coffee"), "src/icons/coffee.svg");
    assert_eq!(get_icon(""), "src/icons/.svg");
}

#[test]
fn every_icon_that_is_shown_has_a_path() {
    let session = Session::new(0, Some(60), 7);
    let mut entries = query_results(Some(session), 5, "");
    entries.extend(query_results(None, 5, ""));
    entries.extend(query_results(None, 5, "5"));
    for entry in entries {
        let icon = entry.icon.expect("every entry has an icon");
        assert_eq!(get_icon(&icon), format!("src/icons/{}.svg", icon));
    }
}
