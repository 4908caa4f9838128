use run_py_cli::event::{poll_window, tick_due};

#[test]
fn poll_window_is_what_is_left_of_the_interval() {
    assert_eq!(poll_window(250, 0), 250);
    assert_eq!(poll_window(250, 100), 150);
    assert_eq!(poll_window(250, 249), 1);
}

#[test]
fn poll_window_is_zero_once_the_interval_has_passed() {
    assert_eq!(poll_window(250, 250), 0);
    assert_eq!(poll_window(250, 10_000), 0);
    assert_eq!(poll_window(0, 0), 0);
    assert_eq!(poll_window(u64::MAX, u64::MAX), 0);
    assert_eq!(poll_window(u64::MAX, 0), u64::MAX);
}

#[test]
fn tick_is_due_when_the_interval_has_passed() {
    assert!(!tick_due(250, 0));
    assert!(!tick_due(250, 249));
    assert!(tick_due(250, 250));
    assert!(tick_due(250, 251));
    assert!(tick_due(0, 0));
}

#[test]
fn tick_is_due_exactly_when_nothing_is_left_to_wait() {
    for tick_rate in 0..6u64 {
        for elapsed in 0..9u64 {
            assert_eq!(tick_due(tick_rate, elapsed), poll_window(tick_rate, elapsed) == 0);
        }
    }
}
