use lifecycle_core::poller::{PollerApplyFailure, PollerConfig, PollerSupervisor};

fn config(target: &str, interval_secs: u64, username: &str, password: &str) -> PollerConfig {
    PollerConfig {
        target: target.to_string(),
        interval_secs,
        username: username.to_string(),
        password: password.to_string(),
    }
}

#[test]
fn fresh_supervisor_is_idle() {
    let supervisor = PollerSupervisor::new();
    assert!(!supervisor.is_running());
    assert_eq!(*supervisor.config(), None);
    assert_eq!(*supervisor.in_flight(), None);
    assert_eq!(*supervisor.snapshot(), None);
}

#[test]
fn duplicate_equals_the_record() {
    let record = config("http://host:9091/rpc", 5, "user", "secret");
    assert_eq!(record.duplicate(), record);
}

#[test]
fn poller_start_is_idempotent() {
    let mut supervisor = PollerSupervisor::new();
    assert!(supervisor.start());
    assert!(!supervisor.start());
    assert!(supervisor.is_running());
    supervisor.stop();
    assert!(!supervisor.is_running());
    supervisor.stop();
    assert!(!supervisor.is_running());
    assert!(supervisor.start());
    assert!(supervisor.is_running());
}

#[test]
fn configure_before_start_is_kept() {
    let mut supervisor = PollerSupervisor::new();
    let first = config("http://a/rpc", 5, "u", "p");
    assert_eq!(supervisor.configure(first.duplicate(), true), Ok(()));
    assert_eq!(*supervisor.config(), Some(first.duplicate()));
    assert_eq!(supervisor.begin_cycle(), None);
    supervisor.start();
    assert_eq!(supervisor.begin_cycle(), Some(first));
}

#[test]
fn failed_apply_leaves_the_previous_configuration() {
    let mut supervisor = PollerSupervisor::new();
    let first = config("http://a/rpc", 5, "u", "p");
    let second = config("http://b/rpc", 9, "v", "q");
    assert_eq!(supervisor.configure(first.duplicate(), true), Ok(()));
    assert_eq!(supervisor.configure(second, false), Err(PollerApplyFailure));
    assert_eq!(*supervisor.config(), Some(first));
}

#[test]
fn failed_apply_on_a_fresh_supervisor_configures_nothing() {
    let mut supervisor = PollerSupervisor::new();
    let first = config("http://a/rpc", 5, "u", "p");
    assert_eq!(supervisor.configure(first, false), Err(PollerApplyFailure));
    assert_eq!(*supervisor.config(), None);
}

#[test]
fn cycle_needs_a_configuration() {
    let mut supervisor = PollerSupervisor::new();
    supervisor.start();
    assert_eq!(supervisor.begin_cycle(), None);
    assert_eq!(*supervisor.in_flight(), None);
}

#[test]
fn configure_during_a_cycle_reaches_the_next_cycle_only() {
    let mut supervisor = PollerSupervisor::new();
    let first = config("http://a/rpc", 5, "u", "p");
    let second = config("http://b/rpc", 9, "v", "q");
    supervisor.start();
    assert_eq!(supervisor.configure(first.duplicate(), true), Ok(()));
    assert_eq!(supervisor.begin_cycle(), Some(first.duplicate()));
    assert_eq!(supervisor.configure(second.duplicate(), true), Ok(()));
    assert_eq!(*supervisor.in_flight(), Some(first));
    assert_eq!(*supervisor.config(), Some(second.duplicate()));
    supervisor.complete_cycle(Some(vec![1, 2, 3]));
    assert_eq!(*supervisor.in_flight(), None);
    assert_eq!(supervisor.begin_cycle(), Some(second.duplicate()));
    assert_eq!(*supervisor.in_flight(), Some(second));
}

#[test]
fn one_cycle_at_a_time() {
    let mut supervisor = PollerSupervisor::new();
    let first = config("http://a/rpc", 5, "u", "p");
    supervisor.start();
    let _ = supervisor.configure(first.duplicate(), true);
    assert_eq!(supervisor.begin_cycle(), Some(first.duplicate()));
    assert_eq!(supervisor.begin_cycle(), None);
    assert_eq!(*supervisor.in_flight(), Some(first));
}

#[test]
fn snapshot_is_the_latest_result() {
    let mut supervisor = PollerSupervisor::new();
    supervisor.start();
    let _ = supervisor.configure(config("http://a/rpc", 5, "u", "p"), true);
    let _ = supervisor.begin_cycle();
    supervisor.complete_cycle(Some(vec![7, 8]));
    assert_eq!(*supervisor.snapshot(), Some(vec![7, 8]));
    let _ = supervisor.begin_cycle();
    supervisor.complete_cycle(None);
    assert_eq!(*supervisor.snapshot(), Some(vec![7, 8]));
    let _ = supervisor.begin_cycle();
    supervisor.complete_cycle(Some(vec![9]));
    assert_eq!(*supervisor.snapshot(), Some(vec![9]));
}

#[test]
fn result_without_a_cycle_is_dropped() {
    let mut supervisor = PollerSupervisor::new();
    supervisor.complete_cycle(Some(vec![1]));
    assert_eq!(*supervisor.snapshot(), None);
}

#[test]
fn stopped_supervisor_finishes_its_cycle_and_begins_no_other() {
    let mut supervisor = PollerSupervisor::new();
    let first = config("http://a/rpc", 5, "u", "p");
    supervisor.start();
    let _ = supervisor.configure(first.duplicate(), true);
    let _ = supervisor.begin_cycle();
    supervisor.stop();
    assert_eq!(*supervisor.in_flight(), Some(first));
    supervisor.complete_cycle(Some(vec![4]));
    assert_eq!(*supervisor.snapshot(), Some(vec![4]));
    assert_eq!(supervisor.begin_cycle(), None);
}
