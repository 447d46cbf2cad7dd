use org_clock_dbus::cli::{MonitorArgs, OutputMode};
use org_clock_dbus::clock::{Clock, State};
use org_clock_dbus::monitor::{dispatch, dispatch_now, WaitOutcome};

const MINUTE: i64 = 60_000;

fn member(name: &str) -> Option<String> {
    Some(name.to_string())
}

fn new_clock(mode: OutputMode) -> Clock {
    Clock::new(MonitorArgs {
        mode,
        format: "[{time}] {heading}".to_string(),
        down_from: None,
    })
    .unwrap()
}

fn running_parts(s: &State) -> (i128, String) {
    match s {
        State::Running { started_at, heading } => (*started_at, heading.clone()),
        State::Stopped => panic!("expected a running state"),
    }
}

#[test]
fn started_with_epoch_and_label() {
    let s = dispatch(member("Started"), Some(1000), Some("Write spec".to_string()), 7).unwrap();
    assert_eq!(running_parts(&s), (1_000_000, "Write spec".to_string()));
}

#[test]
fn started_without_epoch_uses_receipt_time() {
    let s = dispatch(member("Started"), None, Some("L".to_string()), 123_456).unwrap();
    assert_eq!(running_parts(&s), (123_456, "L".to_string()));
}

#[test]
fn started_without_label_is_missing() {
    let s = dispatch(member("Started"), Some(5), None, 0).unwrap();
    assert_eq!(running_parts(&s), (5_000, "missing".to_string()));
    let mut c = new_clock(OutputMode::Simple);
    assert!(c.on_wait(WaitOutcome::Received(s)));
    assert_eq!(c.render_at(5_000 + 2 * MINUTE).unwrap(), "[00:02] missing");
}

#[test]
fn started_with_largest_epoch() {
    let s = dispatch(member("Started"), Some(u64::MAX), None, 0).unwrap();
    assert_eq!(running_parts(&s).0, u64::MAX as i128 * 1000);
    let mut c = new_clock(OutputMode::Simple);
    c.on_wait(WaitOutcome::Received(s));
    assert_eq!(c.render_at(0).unwrap(), "[00:00] missing");
}

#[test]
fn stopped_ignores_payload() {
    let s = dispatch(member("Stopped"), Some(99), Some("x".to_string()), 0);
    assert!(matches!(s, Some(State::Stopped)));
}

#[test]
fn unrecognized_member_gives_nothing() {
    assert!(dispatch(member("Paused"), Some(1), Some("x".to_string()), 0).is_none());
    assert!(dispatch(member("started"), Some(1), None, 0).is_none());
    assert!(dispatch(None, Some(1), None, 0).is_none());
}

#[test]
fn dispatch_now_classifies() {
    let s = dispatch_now(member("Started"), Some(42), Some("L".to_string())).unwrap();
    assert_eq!(running_parts(&s), (42_000, "L".to_string()));
    let s = dispatch_now(member("Started"), None, None).unwrap();
    assert_eq!(running_parts(&s).1, "missing");
    assert!(matches!(dispatch_now(member("Stopped"), None, None), Some(State::Stopped)));
    assert!(dispatch_now(member("Other"), None, None).is_none());
}

#[test]
fn wait_outcomes() {
    let mut c = new_clock(OutputMode::Simple);
    let s = dispatch(member("Started"), Some(0), Some("A".to_string()), 0).unwrap();
    assert!(c.on_wait(WaitOutcome::Received(s)));
    assert!(c.on_wait(WaitOutcome::TimedOut));
    assert_eq!(running_parts(&c.state), (0, "A".to_string()));
    assert!(!c.on_wait(WaitOutcome::Disconnected));
    assert_eq!(running_parts(&c.state), (0, "A".to_string()));
    assert!(c.on_wait(WaitOutcome::Received(State::Stopped)));
    assert!(matches!(c.state, State::Stopped));
}

#[test]
fn last_delivered_event_wins() {
    let events = [
        (member("Started"), Some(10), Some("A".to_string())),
        (member("Stopped"), None, None),
        (member("Started"), Some(20), Some("B".to_string())),
        (member("Bogus"), None, None),
        (member("Started"), Some(30), Some("C".to_string())),
    ];
    let mut c = new_clock(OutputMode::Simple);
    for (m, e, l) in events {
        if let Some(t) = dispatch(m, e, l, 0) {
            assert!(c.on_wait(WaitOutcome::Received(t)));
        }
    }
    assert!(c.on_wait(WaitOutcome::TimedOut));
    assert_eq!(c.render_at(30_000 + 3 * MINUTE).unwrap(), "[00:03] C");

    let t = dispatch(member("Stopped"), None, None, 0).unwrap();
    c.on_wait(WaitOutcome::Received(t));
    assert_eq!(c.render_at(30_000 + 4 * MINUTE).unwrap(), "");
}

#[test]
fn unrecognized_member_keeps_running_state() {
    let mut c = new_clock(OutputMode::Simple);
    let t = dispatch(member("Started"), Some(100), Some("Task".to_string()), 0).unwrap();
    c.on_wait(WaitOutcome::Received(t));
    let before = c.render_at(100_000 + 7 * MINUTE).unwrap();
    assert!(dispatch(member("Clocked"), Some(5), Some("Other".to_string()), 0).is_none());
    assert!(c.on_wait(WaitOutcome::TimedOut));
    assert_eq!(c.render_at(100_000 + 7 * MINUTE).unwrap(), before);
    assert_eq!(before, "[00:07] Task");
}

#[test]
fn unrecognized_member_keeps_idle_state() {
    let mut c = new_clock(OutputMode::Waybar);
    let before = c.render_at(0).unwrap();
    assert!(dispatch(member("Clocked"), None, None, 0).is_none());
    assert!(c.on_wait(WaitOutcome::TimedOut));
    assert_eq!(c.render_at(99 * MINUTE).unwrap(), before);
}

#[test]
fn write_spec_scenario() {
    let mut c = new_clock(OutputMode::Waybar);
    let t = dispatch(member("Started"), Some(1000), Some("Write spec".to_string()), 0).unwrap();
    assert!(c.on_wait(WaitOutcome::Received(t)));
    let start: i64 = 1_000_000;
    let mut seen = Vec::new();
    for n in [0i64, 1, 59, 60, 65, 125] {
        let line = c.render_at(start + n * MINUTE).unwrap();
        seen.push(line);
        assert!(c.on_wait(WaitOutcome::TimedOut));
    }
    let expect = |time: &str| {
        format!(
            r#"{{"alt":"running","class":"running","percentage":"","text":"[{t}] Write spec","tooltip":"[{t}] Write spec"}}"#,
            t = time
        )
    };
    assert_eq!(seen[0], expect("00:00"));
    assert_eq!(seen[1], expect("00:01"));
    assert_eq!(seen[2], expect("00:59"));
    assert_eq!(seen[3], expect("01:00"));
    assert_eq!(seen[4], expect("01:05"));
    assert_eq!(seen[5], expect("02:05"));
}

#[test]
fn state_validity() {
    assert!(State::Stopped.is_valid());
    let s = dispatch(member("Started"), Some(u64::MAX), None, i64::MIN).unwrap();
    assert!(s.is_valid());
    let far = State::Running { started_at: i128::MAX, heading: String::new() };
    assert!(!far.is_valid());
}
