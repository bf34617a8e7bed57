use floxy_entrypoint::signals::{SIGINT, SIGQUIT, SIGTERM};
use floxy_entrypoint::{
    is_termination_signal, next_iteration, readiness_step, record_signal, should_read_events,
    Iteration, Readiness,
};

#[test]
fn termination_signals() {
    assert!(is_termination_signal(SIGINT));
    assert!(is_termination_signal(SIGTERM));
    assert!(is_termination_signal(SIGQUIT));
    assert!(!is_termination_signal(1));
    assert!(!is_termination_signal(10));
    assert!(!is_termination_signal(0));
}

#[test]
fn signal_while_waiting_ends_the_loop() {
    assert_eq!(next_iteration(0), Iteration::Wait);
    let state = record_signal(0, SIGTERM);
    assert_eq!(state, 15);
    // The interrupted wait reports EINTR and reads nothing.
    assert!(!should_read_events(Err(4)));
    assert_eq!(next_iteration(state), Iteration::Shutdown { signum: 15 });
}

#[test]
fn first_signal_is_kept() {
    let state = record_signal(0, SIGINT);
    assert_eq!(record_signal(state, SIGTERM), SIGINT);
    assert_eq!(record_signal(state, SIGQUIT), SIGINT);
    assert_eq!(next_iteration(record_signal(state, SIGTERM)), Iteration::Shutdown { signum: 2 });
}

#[test]
fn other_signals_do_not_shut_down() {
    assert_eq!(record_signal(0, 1), 0);
    assert_eq!(next_iteration(record_signal(0, 10)), Iteration::Wait);
}

#[test]
fn wait_results() {
    assert!(should_read_events(Ok(1)));
    assert!(!should_read_events(Ok(0)));
    assert!(!should_read_events(Err(11)));
}

#[test]
fn readiness_polling() {
    assert_eq!(readiness_step(0, true), Readiness::Ready);
    assert_eq!(readiness_step(40000, true), Readiness::Ready);
    assert_eq!(readiness_step(0, false), Readiness::Poll);
    assert_eq!(readiness_step(30000, false), Readiness::Poll);
    assert_eq!(readiness_step(30001, false), Readiness::TimedOut);
}
