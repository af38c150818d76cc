use mgs_cli::platform::HostOs;
use mgs_cli::runner::health::HealthObservation;
use mgs_cli::runner::start::{network_conflict, start_begin, start_step, StartAction, StartError, StartEvent, StartStage, StartState};

fn healthy() -> StartEvent {
    StartEvent::HealthObserved {
        observation: HealthObservation { state_present: true, health_status: Some("healthy".to_string()), running: Some(true) },
        deadline_passed: false,
    }
}

fn starting() -> StartEvent {
    StartEvent::HealthObserved {
        observation: HealthObservation { state_present: true, health_status: Some("starting".to_string()), running: Some(true) },
        deadline_passed: false,
    }
}

fn drive(os: HostOs, events: Vec<StartEvent>) -> (StartState, Vec<StartAction>) {
    let (mut state, first) = start_begin();
    let mut actions = vec![first];
    for e in events {
        let (s, a) = start_step(os, state, e);
        state = s;
        actions.push(a);
    }
    (state, actions)
}

#[test]
fn full_successful_start() {
    let (state, actions) = drive(
        HostOs::Unix,
        vec![
            StartEvent::PullProgress { error_detail: None },
            StartEvent::Succeeded,
            StartEvent::Succeeded,
            StartEvent::Succeeded,
            StartEvent::ContainerCreated { id: "side".to_string() },
            StartEvent::Succeeded,
            starting(),
            healthy(),
            StartEvent::HostIdentity { uid: 501, gid: 20, docker_socket_gid: Some(998) },
            StartEvent::ContainerCreated { id: "run".to_string() },
            StartEvent::Succeeded,
            StartEvent::RunnerInspected { state_present: true, running: Some(true), exit_code: Some(0) },
        ],
    );
    assert_eq!(
        actions,
        vec![
            StartAction::PullImage,
            StartAction::ReadPullProgress,
            StartAction::CreateNetwork,
            StartAction::CreateVolume,
            StartAction::CreateSidecarContainer,
            StartAction::StartContainer { id: "side".to_string() },
            StartAction::BeginHealthWait { container_id: "side".to_string(), timeout_secs: 60 },
            StartAction::PollHealth { container_id: "side".to_string(), delay_ms: 500 },
            StartAction::QueryHostIdentity,
            StartAction::CreateRunnerContainer { sidecar_id: "side".to_string(), uid: 501, gid: 20, docker_gid: Some(998) },
            StartAction::StartContainer { id: "run".to_string() },
            StartAction::InspectRunnerAfter { container_id: "run".to_string(), delay_secs: 3 },
            StartAction::Stop,
        ]
    );
    assert!(matches!(state, StartState::Running { ref sidecar_id } if sidecar_id == "side"));
}

#[test]
fn windows_uses_fixed_ids_and_group_zero() {
    let (state, actions) = drive(
        HostOs::Windows,
        vec![
            StartEvent::Succeeded,
            StartEvent::Succeeded,
            StartEvent::Succeeded,
            StartEvent::ContainerCreated { id: "side".to_string() },
            StartEvent::Succeeded,
            healthy(),
            StartEvent::HostIdentity { uid: 5, gid: 6, docker_socket_gid: None },
        ],
    );
    assert_eq!(
        actions.last().unwrap(),
        &StartAction::CreateRunnerContainer { sidecar_id: "side".to_string(), uid: 1000, gid: 1000, docker_gid: Some(0) }
    );
    assert!(matches!(state, StartState::CreatingRunner { .. }));
}

#[test]
fn unix_root_owned_socket_gives_no_docker_group() {
    let (_, actions) = drive(
        HostOs::Unix,
        vec![
            StartEvent::Succeeded,
            StartEvent::Succeeded,
            StartEvent::Succeeded,
            StartEvent::ContainerCreated { id: "s".to_string() },
            StartEvent::Succeeded,
            healthy(),
            StartEvent::HostIdentity { uid: 5, gid: 6, docker_socket_gid: Some(0) },
        ],
    );
    assert_eq!(
        actions.last().unwrap(),
        &StartAction::CreateRunnerContainer { sidecar_id: "s".to_string(), uid: 5, gid: 6, docker_gid: None }
    );
}

#[test]
fn existing_network_is_reused() {
    let (state, actions) = drive(
        HostOs::Unix,
        vec![StartEvent::Succeeded, StartEvent::CallFailed { message: "409 Conflict: network exists".to_string() }],
    );
    assert_eq!(actions.last().unwrap(), &StartAction::CreateVolume);
    assert!(matches!(state, StartState::CreatingVolume));
    let (state, _) = drive(
        HostOs::Unix,
        vec![StartEvent::Succeeded, StartEvent::CallFailed { message: "network already exists".to_string() }],
    );
    assert!(matches!(state, StartState::CreatingVolume));
}

#[test]
fn other_network_errors_fail() {
    let (state, actions) = drive(
        HostOs::Unix,
        vec![StartEvent::Succeeded, StartEvent::CallFailed { message: "permission denied".to_string() }],
    );
    assert_eq!(actions.last().unwrap(), &StartAction::Stop);
    assert!(matches!(
        state,
        StartState::Failed(StartError::CallFailed { stage: StartStage::CreateNetwork, ref message }) if message == "permission denied"
    ));
}

#[test]
fn pull_errors_fail() {
    let (state, _) = drive(HostOs::Unix, vec![StartEvent::PullProgress { error_detail: Some("denied".to_string()) }]);
    assert!(matches!(state, StartState::Failed(StartError::PullRejected { ref detail }) if detail == "denied"));
    let (state, _) = drive(HostOs::Unix, vec![StartEvent::CallFailed { message: "eof".to_string() }]);
    assert!(matches!(state, StartState::Failed(StartError::CallFailed { stage: StartStage::PullImage, .. })));
}

#[test]
fn sidecar_health_failures() {
    let prefix = || {
        vec![
            StartEvent::Succeeded,
            StartEvent::Succeeded,
            StartEvent::Succeeded,
            StartEvent::ContainerCreated { id: "s".to_string() },
            StartEvent::Succeeded,
        ]
    };
    let mut ev = prefix();
    ev.push(StartEvent::HealthObserved {
        observation: HealthObservation { state_present: true, health_status: Some("unhealthy".to_string()), running: Some(true) },
        deadline_passed: false,
    });
    assert!(matches!(drive(HostOs::Unix, ev).0, StartState::Failed(StartError::SidecarUnhealthy { .. })));

    let mut ev = prefix();
    ev.push(StartEvent::HealthObserved {
        observation: HealthObservation { state_present: true, health_status: None, running: Some(false) },
        deadline_passed: false,
    });
    assert!(matches!(drive(HostOs::Unix, ev).0, StartState::Failed(StartError::SidecarStopped { .. })));

    let mut ev = prefix();
    ev.push(StartEvent::HealthObserved {
        observation: HealthObservation { state_present: false, health_status: None, running: None },
        deadline_passed: true,
    });
    assert!(matches!(
        drive(HostOs::Unix, ev).0,
        StartState::Failed(StartError::SidecarTimedOut { timeout_secs: 60, .. })
    ));
}

#[test]
fn exited_runner_fails_with_its_exit_code() {
    let events = || {
        vec![
            StartEvent::Succeeded,
            StartEvent::Succeeded,
            StartEvent::Succeeded,
            StartEvent::ContainerCreated { id: "s".to_string() },
            StartEvent::Succeeded,
            healthy(),
            StartEvent::HostIdentity { uid: 1, gid: 1, docker_socket_gid: Some(7) },
            StartEvent::ContainerCreated { id: "r".to_string() },
            StartEvent::Succeeded,
        ]
    };
    let mut ev = events();
    ev.push(StartEvent::RunnerInspected { state_present: true, running: Some(false), exit_code: Some(3) });
    let (state, actions) = drive(HostOs::Unix, ev);
    assert_eq!(actions.last().unwrap(), &StartAction::CollectLogs { container_id: "r".to_string(), tail: 50 });
    let (state, action) = start_step(HostOs::Unix, state, StartEvent::Succeeded);
    assert_eq!(action, StartAction::Stop);
    assert!(matches!(state, StartState::Failed(StartError::RunnerExited { exit_code: 3 })));

    let mut ev = events();
    ev.push(StartEvent::RunnerInspected { state_present: true, running: None, exit_code: None });
    let (state, _) = drive(HostOs::Unix, ev);
    let (state, _) = start_step(HostOs::Unix, state, StartEvent::CallFailed { message: "log error".to_string() });
    assert!(matches!(state, StartState::Failed(StartError::RunnerExited { exit_code: -1 })));

    let mut ev = events();
    ev.push(StartEvent::RunnerInspected { state_present: false, running: Some(true), exit_code: None });
    assert!(matches!(drive(HostOs::Unix, ev).0, StartState::Failed(StartError::NoContainerState)));
}

#[test]
fn finished_starts_stay_finished() {
    let (state, action) = start_step(HostOs::Unix, StartState::Running { sidecar_id: "s".to_string() }, StartEvent::Succeeded);
    assert_eq!(action, StartAction::Stop);
    assert!(matches!(state, StartState::Running { .. }));
    let (state, action) = start_step(
        HostOs::Unix,
        StartState::Failed(StartError::NoContainerState),
        StartEvent::ContainerCreated { id: "x".to_string() },
    );
    assert_eq!(action, StartAction::Stop);
    assert!(matches!(state, StartState::Failed(StartError::NoContainerState)));
}

#[test]
fn unexpected_events_change_nothing() {
    let (state, action) = start_step(HostOs::Unix, StartState::CreatingVolume, StartEvent::ContainerCreated { id: "x".to_string() });
    assert_eq!(action, StartAction::Idle);
    assert!(matches!(state, StartState::CreatingVolume));
}

#[test]
fn conflict_detection() {
    assert!(network_conflict("Error response from daemon: Conflict"));
    assert!(network_conflict("network with name runner-net-x already exists"));
    assert!(!network_conflict("conflict"));
}
