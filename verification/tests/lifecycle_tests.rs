use window_update_blocker::lifecycle::{
    ControlEvent, Controller, ExitCode, HandlerAck, LifecyclePhase, ServiceState,
    ServiceStatusReport, EXIT_CODE_RUNTIME_INIT, EXIT_CODE_WORKER_PANIC,
};
use window_update_blocker::logging::LoggingInit;

#[test]
fn interrogates_then_stop_transition_happens_exactly_once() {
    let mut ctrl = Controller::new();
    assert_eq!(ctrl.phase, LifecyclePhase::Starting);

    let report = ctrl.on_registered();
    assert_eq!(report, ServiceStatusReport::running());
    assert_eq!(ctrl.phase, LifecyclePhase::Running);
    assert!(!ctrl.signal.child_observes());

    // Any number of interrogates: acknowledged, nothing moves.
    for _ in 0..3 {
        let ack = ctrl.handle_control(ControlEvent::Interrogate);
        assert_eq!(ack, HandlerAck::NoError);
        assert_eq!(ctrl.phase, LifecyclePhase::Running);
        assert!(!ctrl.signal.child_observes());
    }

    // Exactly one stop: running -> stop pending, signal set for every child.
    let ack = ctrl.handle_control(ControlEvent::Stop);
    assert_eq!(ack, HandlerAck::NoError);
    assert_eq!(ctrl.phase, LifecyclePhase::StopPending);
    assert!(ctrl.signal.child_observes());

    // A later stop keeps the phase and the signal: no second transition.
    let ack = ctrl.handle_control(ControlEvent::Stop);
    assert_eq!(ack, HandlerAck::NoError);
    assert_eq!(ctrl.phase, LifecyclePhase::StopPending);
    assert!(ctrl.signal.child_observes());

    // Clean worker join: stop pending -> stopped, with a success report.
    let report = ctrl.on_worker_joined(false);
    assert_eq!(report, ServiceStatusReport::stopped());
    assert_eq!(ctrl.phase, LifecyclePhase::Stopped);
    assert!(ctrl.signal.child_observes());
}

#[test]
fn worker_panic_is_reported_with_its_exit_code() {
    let mut ctrl = Controller::new();
    ctrl.on_registered();
    ctrl.handle_control(ControlEvent::Stop);
    let report = ctrl.on_worker_joined(true);
    assert_eq!(ctrl.phase, LifecyclePhase::StoppedWithError(EXIT_CODE_WORKER_PANIC));
    assert_eq!(report.current_state, ServiceState::Stopped);
    assert_eq!(report.exit_code, ExitCode::ServiceSpecific(1));
}

#[test]
fn runtime_init_failure_is_reported_with_its_exit_code() {
    let mut ctrl = Controller::new();
    ctrl.on_registered();
    let report = ctrl.on_runtime_init_failed();
    assert_eq!(ctrl.phase, LifecyclePhase::StoppedWithError(EXIT_CODE_RUNTIME_INIT));
    assert_eq!(report.current_state, ServiceState::Stopped);
    assert_eq!(report.exit_code, ExitCode::ServiceSpecific(2));
    assert!(!report.accepts_stop);
}

#[test]
fn unimplemented_controls_are_acknowledged_as_such() {
    let mut ctrl = Controller::new();
    ctrl.on_registered();
    let ack = ctrl.handle_control(ControlEvent::Other);
    assert_eq!(ack, HandlerAck::NotImplemented);
    assert_eq!(ctrl.phase, LifecyclePhase::Running);
    assert!(!ctrl.signal.child_observes());
}

#[test]
fn running_report_accepts_stop_with_success_code() {
    let r = ServiceStatusReport::running();
    assert_eq!(r.current_state, ServiceState::Running);
    assert!(r.accepts_stop);
    assert_eq!(r.exit_code, ExitCode::Win32(0));
    assert!(r.own_process);
    assert_eq!(r.checkpoint, 0);
    assert_eq!(r.wait_hint_ms, 0);
}

#[test]
fn stopped_report_accepts_nothing() {
    let r = ServiceStatusReport::stopped();
    assert_eq!(r.current_state, ServiceState::Stopped);
    assert!(!r.accepts_stop);
    assert_eq!(r.exit_code, ExitCode::Win32(0));
}

#[test]
fn logging_initializes_once_only() {
    let mut guard = LoggingInit::new();
    assert!(guard.try_init());
    assert!(!guard.try_init());
    assert!(guard.initialized);
}
