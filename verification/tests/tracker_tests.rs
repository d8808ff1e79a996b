use stock_monitor::should_notify;
use stock_monitor::MonitorState;

#[test]
fn notify_only_on_rising_edge() {
    assert_eq!(should_notify(false, true), true);
    assert_eq!(should_notify(true, true), false);
    assert_eq!(should_notify(true, false), false);
    assert_eq!(should_notify(false, false), false);
}

#[test]
fn fresh_monitor_starts_out_of_stock() {
    let state = MonitorState::new();
    assert!(!state.currently_in_stock);
}

#[test]
fn observe_tracks_latest_value() {
    let mut state = MonitorState::new();
    state.observe(true);
    assert!(state.currently_in_stock);
    state.observe(false);
    assert!(!state.currently_in_stock);
}

#[test]
fn repeated_in_stock_notifies_once() {
    let mut state = MonitorState::new();
    let mut notifications: u32 = 0;
    for _ in 0..5 {
        if state.observe(true) {
            notifications += 1;
        }
    }
    assert_eq!(notifications, 1);
}

#[test]
fn falling_back_and_rising_notifies_again() {
    let mut state = MonitorState::new();
    assert!(state.observe(true));
    assert!(!state.observe(true));
    assert!(!state.observe(false));
    assert!(state.observe(true));
}

#[test]
fn cold_start_in_stock_notifies() {
    let mut state = MonitorState::new();
    assert!(state.observe(true));
}
