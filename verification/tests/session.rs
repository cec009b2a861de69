use caffeine::session::Session;

#[test]
fn new_keeps_what_it_is_given() {
    let session = Session::new(100, Some(60), 7);
    assert_eq!(session.start_time, 100);
    assert_eq!(session.session_length, Some(60));
    assert_eq!(session.daemon_id, 7);
    assert_eq!(session, Session { start_time: 100, session_length: Some(60), daemon_id: 7 });
}

#[test]
fn elapsed_is_now_less_start() {
    let session = Session::new(1_000, None, 1);
    assert_eq!(session.elapsed(1_000), 0);
    assert_eq!(session.elapsed(1_001), 1);
    assert_eq!(session.elapsed(1_750), 750);
    assert_eq!(session.elapsed(u64::MAX), u64::MAX - 1_000);
}

#[test]
fn a_clock_before_the_start_counts_as_no_time_passed() {
    let session = Session::new(1_000, Some(60), 1);
    assert_eq!(session.elapsed(999), 0);
    assert_eq!(session.elapsed(0), 0);
    assert_eq!(session.remaining(0), Some(60));
}

#[test]
fn remaining_is_length_less_elapsed() {
    let session = Session::new(1_000, Some(60), 1);
    assert_eq!(session.remaining(1_000), Some(60));
    assert_eq!(session.remaining(1_001), Some(59));
    assert_eq!(session.remaining(1_030), Some(30));
    assert_eq!(session.remaining(1_059), Some(1));
}

#[test]
fn remaining_is_clamped_to_zero() {
    let session = Session::new(1_000, Some(60), 1);
    assert_eq!(session.remaining(1_060), Some(0));
    assert_eq!(session.remaining(1_061), Some(0));
    assert_eq!(session.remaining(u64::MAX), Some(0));
}

#[test]
fn remaining_does_not_overflow_near_the_end_of_time() {
    let session = Session::new(u64::MAX - 5, Some(u64::MAX), 1);
    assert_eq!(session.remaining(u64::MAX - 5), Some(u64::MAX));
    assert_eq!(session.remaining(u64::MAX), Some(u64::MAX - 5));
}

#[test]
fn a_session_without_an_end_has_no_remaining_time() {
    let session = Session::new(1_000, None, 1);
    assert_eq!(session.remaining(1_000), None);
    assert_eq!(session.remaining(999_999), None);
    assert_eq!(session.get_remaining_time(999_999), None);
    assert_eq!(session.get_session_length(), None);
}

#[test]
fn times_are_rendered_for_people() {
    let session = Session::new(1_000, Some(3_600), 1);
    assert_eq!(session.get_elapsed_time(1_750), "12m 30s");
    assert_eq!(session.get_session_length(), Some(String::from("1h 0m 0s")));
    assert_eq!(session.get_remaining_time(1_750), Some(String::from("47m 30s")));
    assert_eq!(session.get_remaining_time(4_570), Some(String::from("30s")));
    assert_eq!(session.get_remaining_time(5_000), Some(String::from("0s")));
    assert_eq!(session.get_elapsed_time(1_000), "0s");
}

#[test]
fn elapsed_never_goes_down_and_remaining_never_goes_up() {
    let session = Session::new(500, Some(90), 3);
    let mut last_elapsed = 0;
    let mut last_remaining = u64::MAX;
    for now in [0u64, 499, 500, 501, 530, 589, 590, 591, 10_000] {
        let elapsed = session.elapsed(now);
        let remaining = session.remaining(now).unwrap();
        assert!(elapsed >= last_elapsed);
        assert!(remaining <= last_remaining);
        last_elapsed = elapsed;
        last_remaining = remaining;
    }
}
