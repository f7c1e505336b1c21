use window_update_blocker::lifecycle::ServiceState;
use window_update_blocker::registry::{
    ChangeConfigFlow, ErrorControl, FlowNext, GetConfigFlow, GetConfigNext, InstallFlow,
    ScmAction, ScmEvent, ServiceConfigModel, ServiceError, ServiceKind, StartFlow, StartType,
    StopFlow, UninstallFlow, STOP_WAIT_MS, UNINSTALL_POLL_INTERVAL_MS,
};

#[test]
fn uninstall_of_missing_service_fails_without_touching_deletion() {
    let (mut flow, first) = UninstallFlow::begin();
    assert_eq!(first, ScmAction::CheckExists);
    let next = flow.step(ScmEvent::Exists(false));
    // The one and only call made was the existence check: the deletion path
    // (stop, delete, polling) is never reached.
    assert_eq!(next, FlowNext::Done(Err(ServiceError::DoesNotExist)));
}

#[test]
fn uninstall_times_out_to_success_when_removal_is_never_observed() {
    // A fake SCM that answers every removal poll with "still there".
    let (mut flow, first) = UninstallFlow::begin();
    let mut actions = vec![first];
    let result = loop {
        let ev = match *actions.last().unwrap() {
            ScmAction::CheckExists => ScmEvent::Exists(true),
            ScmAction::Connect => ScmEvent::Connected(true),
            ScmAction::OpenService => ScmEvent::Opened(true),
            ScmAction::QueryStatus => ScmEvent::Status(Some(ServiceState::Stopped)),
            ScmAction::IssueDelete => ScmEvent::DeleteIssued(true),
            ScmAction::PollRemoved => ScmEvent::Removed(false),
            ScmAction::Sleep(_) => ScmEvent::Slept,
            other => panic!("unexpected action {:?}", other),
        };
        match flow.step(ev) {
            FlowNext::Do(a) => actions.push(a),
            FlowNext::Done(r) => break r,
        }
    };
    // Documented quirk preserved from the design: running out of the
    // 5-second window is reported as success, not as a timeout error.
    assert_eq!(result, Ok(()));
    assert!(!flow.removal_confirmed);
    let polls = actions.iter().filter(|a| **a == ScmAction::PollRemoved).count();
    assert_eq!(polls, 5);
    let sleeps = actions
        .iter()
        .filter(|a| **a == ScmAction::Sleep(UNINSTALL_POLL_INTERVAL_MS))
        .count();
    assert_eq!(sleeps, 4);
}

#[test]
fn uninstall_stops_a_running_service_before_deleting() {
    let (mut flow, first) = UninstallFlow::begin();
    assert_eq!(first, ScmAction::CheckExists);
    assert_eq!(flow.step(ScmEvent::Exists(true)), FlowNext::Do(ScmAction::Connect));
    assert_eq!(flow.step(ScmEvent::Connected(true)), FlowNext::Do(ScmAction::OpenService));
    assert_eq!(flow.step(ScmEvent::Opened(true)), FlowNext::Do(ScmAction::QueryStatus));
    assert_eq!(
        flow.step(ScmEvent::Status(Some(ServiceState::Running))),
        FlowNext::Do(ScmAction::IssueStop)
    );
    assert_eq!(flow.step(ScmEvent::StopIssued(true)), FlowNext::Do(ScmAction::IssueDelete));
    assert_eq!(flow.step(ScmEvent::DeleteIssued(true)), FlowNext::Do(ScmAction::PollRemoved));
    assert_eq!(flow.step(ScmEvent::Removed(true)), FlowNext::Done(Ok(())));
    assert!(flow.removal_confirmed);
}

#[test]
fn uninstall_reports_confirmed_removal_on_a_later_poll() {
    let (mut flow, _) = UninstallFlow::begin();
    flow.step(ScmEvent::Exists(true));
    flow.step(ScmEvent::Connected(true));
    flow.step(ScmEvent::Opened(true));
    flow.step(ScmEvent::Status(Some(ServiceState::Stopped)));
    flow.step(ScmEvent::DeleteIssued(true));
    assert_eq!(
        flow.step(ScmEvent::Removed(false)),
        FlowNext::Do(ScmAction::Sleep(UNINSTALL_POLL_INTERVAL_MS))
    );
    assert_eq!(flow.step(ScmEvent::Slept), FlowNext::Do(ScmAction::PollRemoved));
    assert_eq!(flow.step(ScmEvent::Removed(true)), FlowNext::Done(Ok(())));
    assert!(flow.removal_confirmed);
}

#[test]
fn change_config_stops_a_running_service_and_applies_only_once_stopped() {
    // A mock SCM that records the call sequence; the service reports
    // `Running` once, then `StopPending`, then `Stopped`.
    let (mut flow, first) = ChangeConfigFlow::begin();
    let mut actions = vec![first];
    let mut status_answers =
        vec![ServiceState::Running, ServiceState::StopPending, ServiceState::Stopped].into_iter();
    let result = loop {
        let ev = match *actions.last().unwrap() {
            ScmAction::Connect => ScmEvent::Connected(true),
            ScmAction::OpenService => ScmEvent::Opened(true),
            ScmAction::QueryStatus => ScmEvent::Status(Some(status_answers.next().unwrap())),
            ScmAction::IssueStop => ScmEvent::StopIssued(true),
            ScmAction::Sleep(_) => ScmEvent::Slept,
            ScmAction::ApplyConfig => ScmEvent::ConfigApplied(true),
            other => panic!("unexpected action {:?}", other),
        };
        match flow.step(ev) {
            FlowNext::Do(a) => actions.push(a),
            FlowNext::Done(r) => break r,
        }
    };
    assert_eq!(result, Ok(()));
    // The full recorded sequence: query first, stop, poll until stopped,
    // apply last — the new configuration is never written while running.
    assert_eq!(
        actions,
        vec![
            ScmAction::Connect,
            ScmAction::OpenService,
            ScmAction::QueryStatus,
            ScmAction::IssueStop,
            ScmAction::QueryStatus,
            ScmAction::Sleep(250),
            ScmAction::QueryStatus,
            ScmAction::ApplyConfig,
        ]
    );
    let ordered: Vec<ScmAction> = actions
        .iter()
        .copied()
        .filter(|a| !matches!(a, ScmAction::Connect | ScmAction::OpenService | ScmAction::Sleep(_)))
        .collect();
    assert_eq!(ordered.first(), Some(&ScmAction::QueryStatus));
    assert_eq!(ordered.get(1), Some(&ScmAction::IssueStop));
    assert_eq!(ordered.last(), Some(&ScmAction::ApplyConfig));
    assert!(ordered[2..ordered.len() - 1].iter().all(|a| *a == ScmAction::QueryStatus));
}

#[test]
fn change_config_of_a_stopped_service_applies_at_once() {
    let (mut flow, _) = ChangeConfigFlow::begin();
    flow.step(ScmEvent::Connected(true));
    flow.step(ScmEvent::Opened(true));
    assert_eq!(
        flow.step(ScmEvent::Status(Some(ServiceState::Stopped))),
        FlowNext::Do(ScmAction::ApplyConfig)
    );
    assert_eq!(flow.step(ScmEvent::ConfigApplied(true)), FlowNext::Done(Ok(())));
}

#[test]
fn change_config_reports_a_failed_write() {
    let (mut flow, _) = ChangeConfigFlow::begin();
    flow.step(ScmEvent::Connected(true));
    flow.step(ScmEvent::Opened(true));
    flow.step(ScmEvent::Status(Some(ServiceState::Paused)));
    assert_eq!(
        flow.step(ScmEvent::ConfigApplied(false)),
        FlowNext::Done(Err(ServiceError::ChangeConfigFailed))
    );
}

#[test]
fn change_config_fails_when_the_manager_is_unreachable() {
    let (mut flow, _) = ChangeConfigFlow::begin();
    assert_eq!(
        flow.step(ScmEvent::Connected(false)),
        FlowNext::Done(Err(ServiceError::ConnectFailed))
    );
}

#[test]
fn stop_of_missing_service_fails() {
    let (mut flow, _) = StopFlow::begin();
    assert_eq!(
        flow.step(ScmEvent::Exists(false)),
        FlowNext::Done(Err(ServiceError::DoesNotExist))
    );
}

#[test]
fn stop_of_already_stopped_service_succeeds_without_a_request() {
    let (mut flow, _) = StopFlow::begin();
    flow.step(ScmEvent::Exists(true));
    flow.step(ScmEvent::Connected(true));
    flow.step(ScmEvent::Opened(true));
    assert_eq!(
        flow.step(ScmEvent::Status(Some(ServiceState::Stopped))),
        FlowNext::Done(Ok(()))
    );
}

#[test]
fn stop_of_running_service_requests_and_waits() {
    let (mut flow, _) = StopFlow::begin();
    flow.step(ScmEvent::Exists(true));
    flow.step(ScmEvent::Connected(true));
    flow.step(ScmEvent::Opened(true));
    assert_eq!(
        flow.step(ScmEvent::Status(Some(ServiceState::Running))),
        FlowNext::Do(ScmAction::IssueStop)
    );
    assert_eq!(
        flow.step(ScmEvent::StopIssued(true)),
        FlowNext::Do(ScmAction::Sleep(STOP_WAIT_MS))
    );
    assert_eq!(flow.step(ScmEvent::Slept), FlowNext::Done(Ok(())));
}

#[test]
fn start_succeeds_when_the_request_does() {
    let (mut flow, first) = StartFlow::begin();
    assert_eq!(first, ScmAction::CheckExists);
    assert_eq!(flow.step(ScmEvent::Exists(true)), FlowNext::Do(ScmAction::Connect));
    assert_eq!(flow.step(ScmEvent::Connected(true)), FlowNext::Do(ScmAction::OpenService));
    assert_eq!(flow.step(ScmEvent::Opened(true)), FlowNext::Do(ScmAction::IssueStart));
    assert_eq!(flow.step(ScmEvent::StartIssued(true)), FlowNext::Done(Ok(())));
}

#[test]
fn start_reports_a_failed_request() {
    let (mut flow, _) = StartFlow::begin();
    flow.step(ScmEvent::Exists(true));
    flow.step(ScmEvent::Connected(true));
    flow.step(ScmEvent::Opened(true));
    assert_eq!(
        flow.step(ScmEvent::StartIssued(false)),
        FlowNext::Done(Err(ServiceError::StartFailed))
    );
}

#[test]
fn install_refuses_an_existing_service() {
    let (mut flow, _) = InstallFlow::begin();
    assert_eq!(
        flow.step(ScmEvent::Exists(true)),
        FlowNext::Done(Err(ServiceError::AlreadyExists))
    );
}

#[test]
fn install_creates_a_missing_service() {
    let (mut flow, _) = InstallFlow::begin();
    assert_eq!(flow.step(ScmEvent::Exists(false)), FlowNext::Do(ScmAction::Connect));
    assert_eq!(flow.step(ScmEvent::Connected(true)), FlowNext::Do(ScmAction::CreateService));
    assert_eq!(flow.step(ScmEvent::Created(true)), FlowNext::Done(Ok(())));
}

#[test]
fn install_reports_a_failed_creation() {
    let (mut flow, _) = InstallFlow::begin();
    flow.step(ScmEvent::Exists(false));
    flow.step(ScmEvent::Connected(true));
    assert_eq!(
        flow.step(ScmEvent::Created(false)),
        FlowNext::Done(Err(ServiceError::CreateFailed))
    );
}

#[test]
fn get_config_hands_the_configuration_through_unchanged() {
    let config = ServiceConfigModel {
        service_type: ServiceKind::OwnProcess,
        start_type: StartType::Disabled,
        error_control: ErrorControl::Normal,
        executable_path: r"C:\x.exe".chars().collect(),
        display_name: "X".chars().collect(),
        dependencies: vec![],
        account_name: None,
    };
    let (mut flow, _) = GetConfigFlow::begin();
    assert!(matches!(flow.step(ScmEvent::Exists(true)), GetConfigNext::Do(ScmAction::Connect)));
    assert!(matches!(
        flow.step(ScmEvent::Connected(true)),
        GetConfigNext::Do(ScmAction::OpenService)
    ));
    assert!(matches!(
        flow.step(ScmEvent::Opened(true)),
        GetConfigNext::Do(ScmAction::QueryConfig)
    ));
    match flow.step(ScmEvent::Config(Some(config))) {
        GetConfigNext::Done(Ok(c)) => {
            assert_eq!(c.start_type, StartType::Disabled);
            assert_eq!(c.executable_path.iter().collect::<String>(), r"C:\x.exe");
        },
        other => panic!("unexpected step outcome {:?}", other),
    }
}

#[test]
fn get_config_of_missing_service_fails() {
    let (mut flow, _) = GetConfigFlow::begin();
    assert!(matches!(
        flow.step(ScmEvent::Exists(false)),
        GetConfigNext::Done(Err(ServiceError::DoesNotExist))
    ));
}
