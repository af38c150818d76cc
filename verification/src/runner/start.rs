//! The order in which a runner is brought up, as a state machine: each event
//! (the outcome of the last outside call) leads to a new state and the next
//! action to perform.

use vstd::prelude::*;
use super::containers::SIDECAR_HEALTH_TIMEOUT_SECS;
use super::health::{HealthObservation, HealthVerdict, health_verdict, health_verdict_spec};
use crate::platform::{HostOs, docker_gid_for, get_docker_gid, get_host_ids, host_ids_for};
use crate::text::{contains_seq, contains_str};

verus! {

/// Milliseconds between two inspections of the sidecar's health.
pub const HEALTH_POLL_MILLIS: u64 = 500;

/// Seconds the runner container is given before it is inspected.
pub const RUNNER_SETTLE_SECS: u64 = 3;

/// Number of log lines fetched from a runner container that exited.
pub const RUNNER_LOG_TAIL: u64 = 50;

/// The outside call that failed.
#[derive(Clone, Copy, PartialEq, Eq, Structural, Debug)]
pub enum StartStage {
    PullImage,
    CreateNetwork,
    CreateVolume,
    CreateSidecar,
    StartSidecar,
    InspectSidecar,
    CreateRunner,
    StartRunner,
    InspectRunner,
}

/// Why the runner could not be started.
#[derive(Debug)]
pub enum StartError {
    /// An outside call failed with `message`.
    CallFailed { stage: StartStage, message: String },
    /// The registry refused the pull.
    PullRejected { detail: String },
    /// The sidecar became unhealthy.
    SidecarUnhealthy { sidecar_id: String },
    /// The sidecar stopped before it became healthy.
    SidecarStopped { sidecar_id: String },
    /// The sidecar was not healthy within `timeout_secs`.
    SidecarTimedOut { sidecar_id: String, timeout_secs: u64 },
    /// The runner container reported no state.
    NoContainerState,
    /// The runner container exited with `exit_code`.
    RunnerExited { exit_code: i64 },
}

/// Where the start of a runner stands.
#[derive(Debug)]
pub enum StartState {
    PullingImage,
    CreatingNetwork,
    CreatingVolume,
    CreatingSidecar,
    StartingSidecar { sidecar_id: String },
    AwaitingSidecarHealth { sidecar_id: String },
    AwaitingHostIdentity { sidecar_id: String },
    CreatingRunner { sidecar_id: String },
    StartingRunner { sidecar_id: String, runner_container_id: String },
    CheckingRunner { sidecar_id: String, runner_container_id: String },
    CollectingRunnerLogs { exit_code: i64 },
    /// The runner runs beside the sidecar `sidecar_id`.
    Running { sidecar_id: String },
    Failed(StartError),
}

/// What the last outside call gave back.
#[derive(Debug)]
pub enum StartEvent {
    /// The call succeeded (for a pull: the progress stream ended).
    Succeeded,
    /// The call failed with `message`.
    CallFailed { message: String },
    /// One message of the pull's progress stream.
    PullProgress { error_detail: Option<String> },
    /// A container was created with the id `id`.
    ContainerCreated { id: String },
    /// The sidecar was inspected; `deadline_passed` tells whether the time
    /// allowed had run out by then.
    HealthObserved { observation: HealthObservation, deadline_passed: bool },
    /// The ids of this process and the group of the Docker socket (`None`
    /// where its metadata could not be read).
    HostIdentity { uid: u32, gid: u32, docker_socket_gid: Option<u32> },
    /// The runner container was inspected.
    RunnerInspected { state_present: bool, running: Option<bool>, exit_code: Option<i64> },
}

/// What to do next.
#[derive(Debug, PartialEq, Eq)]
pub enum StartAction {
    /// Pull the image of `pull_request`.
    PullImage,
    /// Read the next message of the pull's progress stream.
    ReadPullProgress,
    /// Create the network of `network_request`.
    CreateNetwork,
    /// Create the volume of `volume_request`.
    CreateVolume,
    /// Create the container of `sidecar_create_request`.
    CreateSidecarContainer,
    /// Start the container `id`.
    StartContainer { id: String },
    /// Begin waiting `timeout_secs` for `container_id` to be healthy, and inspect it.
    BeginHealthWait { container_id: String, timeout_secs: u64 },
    /// Wait `delay_ms`, then inspect `container_id` again.
    PollHealth { container_id: String, delay_ms: u64 },
    /// Read the ids of this process and the group of the Docker socket.
    QueryHostIdentity,
    /// Create the container of `runner_create_request` with these values.
    CreateRunnerContainer { sidecar_id: String, uid: u32, gid: u32, docker_gid: Option<u32> },
    /// Wait `delay_secs`, then inspect `container_id`.
    InspectRunnerAfter { container_id: String, delay_secs: u64 },
    /// Fetch the last `tail` log lines of `container_id`.
    CollectLogs { container_id: String, tail: u64 },
    /// Nothing more to do: the state holds the outcome.
    Stop,
    /// The event does not belong to this state: nothing changes.
    Idle,
}

/// The start has ended, well or not.
pub open spec fn is_terminal(s: StartState) -> bool {
    s is Running || s is Failed
}

/// The start waits for the outcome of an outside call: in every state but the
/// final ones and the one that waits for the host's identity, which is read
/// locally.
pub open spec fn awaits_outside_call(s: StartState) -> bool {
    !is_terminal(s) && !(s is AwaitingHostIdentity)
}

/// A failure to create the network that means that it already exists.
pub open spec fn is_network_conflict(message: Seq<char>) -> bool {
    contains_seq(message, "Conflict"@) || contains_seq(message, "already exists"@)
}

/// The start fails with `err`.
pub open spec fn fail_with(err: StartError) -> (StartState, StartAction) {
    (StartState::Failed(err), StartAction::Stop)
}

/// The docker group that the runner gets, where one is found on `os`.
pub open spec fn runner_docker_gid(os: HostOs, socket_gid: Option<u32>) -> Option<u32> {
    match docker_gid_for(os, socket_gid) {
        Ok(g) => Some(g),
        Err(_) => None,
    }
}

/// The next state and action of the start in state `s` on the event `e`, on `os`.
pub open spec fn start_step_spec(os: HostOs, s: StartState, e: StartEvent) -> (StartState, StartAction) {
    match (s, e) {
        (StartState::PullingImage, StartEvent::PullProgress { error_detail: None }) => (
            StartState::PullingImage,
            StartAction::ReadPullProgress,
        ),
        (StartState::PullingImage, StartEvent::PullProgress { error_detail: Some(d) }) => fail_with(
            StartError::PullRejected { detail: d },
        ),
        (StartState::PullingImage, StartEvent::Succeeded) => (StartState::CreatingNetwork, StartAction::CreateNetwork),
        (StartState::PullingImage, StartEvent::CallFailed { message }) => fail_with(
            StartError::CallFailed { stage: StartStage::PullImage, message },
        ),
        (StartState::CreatingNetwork, StartEvent::Succeeded) => (StartState::CreatingVolume, StartAction::CreateVolume),
        (StartState::CreatingNetwork, StartEvent::CallFailed { message }) => if is_network_conflict(message@) {
            (StartState::CreatingVolume, StartAction::CreateVolume)
        } else {
            fail_with(StartError::CallFailed { stage: StartStage::CreateNetwork, message })
        },
        (StartState::CreatingVolume, StartEvent::Succeeded) => (
            StartState::CreatingSidecar,
            StartAction::CreateSidecarContainer,
        ),
        (StartState::CreatingVolume, StartEvent::CallFailed { message }) => fail_with(
            StartError::CallFailed { stage: StartStage::CreateVolume, message },
        ),
        (StartState::CreatingSidecar, StartEvent::ContainerCreated { id }) => (
            StartState::StartingSidecar { sidecar_id: id },
            StartAction::StartContainer { id },
        ),
        (StartState::CreatingSidecar, StartEvent::CallFailed { message }) => fail_with(
            StartError::CallFailed { stage: StartStage::CreateSidecar, message },
        ),
        (StartState::StartingSidecar { sidecar_id }, StartEvent::Succeeded) => (
            StartState::AwaitingSidecarHealth { sidecar_id },
            StartAction::BeginHealthWait { container_id: sidecar_id, timeout_secs: SIDECAR_HEALTH_TIMEOUT_SECS },
        ),
        (StartState::StartingSidecar { sidecar_id }, StartEvent::CallFailed { message }) => fail_with(
            StartError::CallFailed { stage: StartStage::StartSidecar, message },
        ),
        (
            StartState::AwaitingSidecarHealth { sidecar_id },
            StartEvent::HealthObserved { observation, deadline_passed },
        ) => match health_verdict_spec(observation, deadline_passed) {
            HealthVerdict::Healthy => (
                StartState::AwaitingHostIdentity { sidecar_id },
                StartAction::QueryHostIdentity,
            ),
            HealthVerdict::Unhealthy => fail_with(StartError::SidecarUnhealthy { sidecar_id }),
            HealthVerdict::Stopped => fail_with(StartError::SidecarStopped { sidecar_id }),
            HealthVerdict::TimedOut => fail_with(
                StartError::SidecarTimedOut { sidecar_id, timeout_secs: SIDECAR_HEALTH_TIMEOUT_SECS },
            ),
            HealthVerdict::Pending => (
                StartState::AwaitingSidecarHealth { sidecar_id },
                StartAction::PollHealth { container_id: sidecar_id, delay_ms: HEALTH_POLL_MILLIS },
            ),
        },
        (StartState::AwaitingSidecarHealth { sidecar_id }, StartEvent::CallFailed { message }) => fail_with(
            StartError::CallFailed { stage: StartStage::InspectSidecar, message },
        ),
        (
            StartState::AwaitingHostIdentity { sidecar_id },
            StartEvent::HostIdentity { uid, gid, docker_socket_gid },
        ) => {
            let ids = host_ids_for(os, (uid, gid));
            (
                StartState::CreatingRunner { sidecar_id },
                StartAction::CreateRunnerContainer {
                    sidecar_id,
                    uid: ids.0,
                    gid: ids.1,
                    docker_gid: runner_docker_gid(os, docker_socket_gid),
                },
            )
        },
        (StartState::CreatingRunner { sidecar_id }, StartEvent::ContainerCreated { id }) => (
            StartState::StartingRunner { sidecar_id, runner_container_id: id },
            StartAction::StartContainer { id },
        ),
        (StartState::CreatingRunner { sidecar_id }, StartEvent::CallFailed { message }) => fail_with(
            StartError::CallFailed { stage: StartStage::CreateRunner, message },
        ),
        (StartState::StartingRunner { sidecar_id, runner_container_id }, StartEvent::Succeeded) => (
            StartState::CheckingRunner { sidecar_id, runner_container_id },
            StartAction::InspectRunnerAfter { container_id: runner_container_id, delay_secs: RUNNER_SETTLE_SECS },
        ),
        (StartState::StartingRunner { sidecar_id, runner_container_id }, StartEvent::CallFailed { message }) => fail_with(
            StartError::CallFailed { stage: StartStage::StartRunner, message },
        ),
        (
            StartState::CheckingRunner { sidecar_id, runner_container_id },
            StartEvent::RunnerInspected { state_present, running, exit_code },
        ) => if !state_present {
            fail_with(StartError::NoContainerState)
        } else if running == Some(true) {
            (StartState::Running { sidecar_id }, StartAction::Stop)
        } else {
            let code = match exit_code {
                Some(c) => c,
                None => -1i64,
            };
            (
                StartState::CollectingRunnerLogs { exit_code: code },
                StartAction::CollectLogs { container_id: runner_container_id, tail: RUNNER_LOG_TAIL },
            )
        },
        (StartState::CheckingRunner { sidecar_id, runner_container_id }, StartEvent::CallFailed { message }) => fail_with(
            StartError::CallFailed { stage: StartStage::InspectRunner, message },
        ),
        (StartState::CollectingRunnerLogs { exit_code }, StartEvent::Succeeded) => fail_with(
            StartError::RunnerExited { exit_code },
        ),
        (StartState::CollectingRunnerLogs { exit_code }, StartEvent::CallFailed { message }) => fail_with(
            StartError::RunnerExited { exit_code },
        ),
        (StartState::Running { sidecar_id }, _) => (StartState::Running { sidecar_id }, StartAction::Stop),
        (StartState::Failed(err), _) => (StartState::Failed(err), StartAction::Stop),
        (s, _) => (s, StartAction::Idle),
    }
}

/// The first state and action of a start: pull the runner's image.
pub fn start_begin() -> (res: (StartState, StartAction))
    ensures
        res == (StartState::PullingImage, StartAction::PullImage),
{
    (StartState::PullingImage, StartAction::PullImage)
}

/// Whether a failure to create the network means that it already exists.
pub fn network_conflict(message: &str) -> (res: bool)
    ensures
        res == is_network_conflict(message@),
        res == (contains_seq(message@, "Conflict"@) || contains_seq(message@, "already exists"@)),
{
    contains_str(message, "Conflict") || contains_str(message, "already exists")
}

/// The next state and action of the start in state `state` on the event
/// `event`, on `os`.
pub fn start_step(os: HostOs, state: StartState, event: StartEvent) -> (res: (StartState, StartAction))
    ensures
        res == start_step_spec(os, state, event),
{
    match (state, event) {
        (StartState::PullingImage, StartEvent::PullProgress { error_detail: None }) => (
            StartState::PullingImage,
            StartAction::ReadPullProgress,
        ),
        (StartState::PullingImage, StartEvent::PullProgress { error_detail: Some(d) }) => (
            StartState::Failed(StartError::PullRejected { detail: d }),
            StartAction::Stop,
        ),
        (StartState::PullingImage, StartEvent::Succeeded) => (StartState::CreatingNetwork, StartAction::CreateNetwork),
        (StartState::PullingImage, StartEvent::CallFailed { message }) => (
            StartState::Failed(StartError::CallFailed { stage: StartStage::PullImage, message }),
            StartAction::Stop,
        ),
        (StartState::CreatingNetwork, StartEvent::Succeeded) => (StartState::CreatingVolume, StartAction::CreateVolume),
        (StartState::CreatingNetwork, StartEvent::CallFailed { message }) => {
            if network_conflict(message.as_str()) {
                (StartState::CreatingVolume, StartAction::CreateVolume)
            } else {
                (
                    StartState::Failed(StartError::CallFailed { stage: StartStage::CreateNetwork, message }),
                    StartAction::Stop,
                )
            }
        },
        (StartState::CreatingVolume, StartEvent::Succeeded) => (
            StartState::CreatingSidecar,
            StartAction::CreateSidecarContainer,
        ),
        (StartState::CreatingVolume, StartEvent::CallFailed { message }) => (
            StartState::Failed(StartError::CallFailed { stage: StartStage::CreateVolume, message }),
            StartAction::Stop,
        ),
        (StartState::CreatingSidecar, StartEvent::ContainerCreated { id }) => (
            StartState::StartingSidecar { sidecar_id: id.clone() },
            StartAction::StartContainer { id },
        ),
        (StartState::CreatingSidecar, StartEvent::CallFailed { message }) => (
            StartState::Failed(StartError::CallFailed { stage: StartStage::CreateSidecar, message }),
            StartAction::Stop,
        ),
        (StartState::StartingSidecar { sidecar_id }, StartEvent::Succeeded) => (
            StartState::AwaitingSidecarHealth { sidecar_id: sidecar_id.clone() },
            StartAction::BeginHealthWait { container_id: sidecar_id, timeout_secs: SIDECAR_HEALTH_TIMEOUT_SECS },
        ),
        (StartState::StartingSidecar { sidecar_id }, StartEvent::CallFailed { message }) => (
            StartState::Failed(StartError::CallFailed { stage: StartStage::StartSidecar, message }),
            StartAction::Stop,
        ),
        (
            StartState::AwaitingSidecarHealth { sidecar_id },
            StartEvent::HealthObserved { observation, deadline_passed },
        ) => match health_verdict(&observation, deadline_passed) {
            HealthVerdict::Healthy => (
                StartState::AwaitingHostIdentity { sidecar_id },
                StartAction::QueryHostIdentity,
            ),
            HealthVerdict::Unhealthy => (
                StartState::Failed(StartError::SidecarUnhealthy { sidecar_id }),
                StartAction::Stop,
            ),
            HealthVerdict::Stopped => (
                StartState::Failed(StartError::SidecarStopped { sidecar_id }),
                StartAction::Stop,
            ),
            HealthVerdict::TimedOut => (
                StartState::Failed(
                    StartError::SidecarTimedOut { sidecar_id, timeout_secs: SIDECAR_HEALTH_TIMEOUT_SECS },
                ),
                StartAction::Stop,
            ),
            HealthVerdict::Pending => (
                StartState::AwaitingSidecarHealth { sidecar_id: sidecar_id.clone() },
                StartAction::PollHealth { container_id: sidecar_id, delay_ms: HEALTH_POLL_MILLIS },
            ),
        },
        (StartState::AwaitingSidecarHealth { sidecar_id }, StartEvent::CallFailed { message }) => (
            StartState::Failed(StartError::CallFailed { stage: StartStage::InspectSidecar, message }),
            StartAction::Stop,
        ),
        (
            StartState::AwaitingHostIdentity { sidecar_id },
            StartEvent::HostIdentity { uid, gid, docker_socket_gid },
        ) => {
            let ids = get_host_ids(os, (uid, gid));
            let docker_gid = match get_docker_gid(os, docker_socket_gid) {
                Ok(g) => Some(g),
                Err(_) => None,
            };
            (
                StartState::CreatingRunner { sidecar_id: sidecar_id.clone() },
                StartAction::CreateRunnerContainer { sidecar_id, uid: ids.0, gid: ids.1, docker_gid },
            )
        },
        (StartState::CreatingRunner { sidecar_id }, StartEvent::ContainerCreated { id }) => (
            StartState::StartingRunner { sidecar_id, runner_container_id: id.clone() },
            StartAction::StartContainer { id },
        ),
        (StartState::CreatingRunner { sidecar_id }, StartEvent::CallFailed { message }) => (
            StartState::Failed(StartError::CallFailed { stage: StartStage::CreateRunner, message }),
            StartAction::Stop,
        ),
        (StartState::StartingRunner { sidecar_id, runner_container_id }, StartEvent::Succeeded) => (
            StartState::CheckingRunner { sidecar_id, runner_container_id: runner_container_id.clone() },
            StartAction::InspectRunnerAfter { container_id: runner_container_id, delay_secs: RUNNER_SETTLE_SECS },
        ),
        (StartState::StartingRunner { sidecar_id, runner_container_id }, StartEvent::CallFailed { message }) => (
            StartState::Failed(StartError::CallFailed { stage: StartStage::StartRunner, message }),
            StartAction::Stop,
        ),
        (
            StartState::CheckingRunner { sidecar_id, runner_container_id },
            StartEvent::RunnerInspected { state_present, running, exit_code },
        ) => {
            if !state_present {
                (StartState::Failed(StartError::NoContainerState), StartAction::Stop)
            } else if running == Some(true) {
                (StartState::Running { sidecar_id }, StartAction::Stop)
            } else {
                let code: i64 = match exit_code {
                    Some(c) => c,
                    None => -1i64,
                };
                (
                    StartState::CollectingRunnerLogs { exit_code: code },
                    StartAction::CollectLogs { container_id: runner_container_id, tail: RUNNER_LOG_TAIL },
                )
            }
        },
        (StartState::CheckingRunner { sidecar_id, runner_container_id }, StartEvent::CallFailed { message }) => (
            StartState::Failed(StartError::CallFailed { stage: StartStage::InspectRunner, message }),
            StartAction::Stop,
        ),
        (StartState::CollectingRunnerLogs { exit_code }, StartEvent::Succeeded) => (
            StartState::Failed(StartError::RunnerExited { exit_code }),
            StartAction::Stop,
        ),
        (StartState::CollectingRunnerLogs { exit_code }, StartEvent::CallFailed { message }) => (
            StartState::Failed(StartError::RunnerExited { exit_code }),
            StartAction::Stop,
        ),
        (StartState::Running { sidecar_id }, _) => (StartState::Running { sidecar_id }, StartAction::Stop),
        (StartState::Failed(err), _) => (StartState::Failed(err), StartAction::Stop),
        (s, _) => (s, StartAction::Idle),
    }
}

/// The sidecar that a state of the start refers to, where it has one.
pub open spec fn sidecar_of(s: StartState) -> Option<String> {
    match s {
        StartState::StartingSidecar { sidecar_id } => Some(sidecar_id),
        StartState::AwaitingSidecarHealth { sidecar_id } => Some(sidecar_id),
        StartState::AwaitingHostIdentity { sidecar_id } => Some(sidecar_id),
        StartState::CreatingRunner { sidecar_id } => Some(sidecar_id),
        StartState::StartingRunner { sidecar_id, .. } => Some(sidecar_id),
        StartState::CheckingRunner { sidecar_id, .. } => Some(sidecar_id),
        StartState::Running { sidecar_id } => Some(sidecar_id),
        _ => None,
    }
}

/// Once a start has ended, well or not, no event changes its outcome and
/// nothing more is done.
pub proof fn law_terminal_states_absorb(os: HostOs, s: StartState, e: StartEvent)
    requires
        is_terminal(s),
    ensures
        start_step_spec(os, s, e) == (s, StartAction::Stop),
{
}

/// A failed outside call ends the start in failure; the one failure that is
/// tolerated is a network creation refused because the network already exists,
/// after which the start goes on with the volume.
pub proof fn law_failed_calls_end_the_start(os: HostOs, s: StartState, message: String)
    requires
        awaits_outside_call(s),
    ensures
        s is CreatingNetwork && is_network_conflict(message@) ==> start_step_spec(
            os,
            s,
            StartEvent::CallFailed { message },
        ) == (StartState::CreatingVolume, StartAction::CreateVolume),
        !(s is CreatingNetwork && is_network_conflict(message@)) ==> start_step_spec(
            os,
            s,
            StartEvent::CallFailed { message },
        ).0 is Failed,
{
}

/// The runner container is only ever created once the sidecar has been seen
/// healthy: the action that creates it follows the host identity query, and
/// that query is reached only from a healthy observation of the sidecar.
pub proof fn law_runner_created_only_after_healthy_sidecar(os: HostOs, s: StartState, e: StartEvent)
    ensures
        start_step_spec(os, s, e).1 is CreateRunnerContainer ==> s is AwaitingHostIdentity
            && e is HostIdentity,
        start_step_spec(os, s, e).0 is AwaitingHostIdentity ==> s is AwaitingHostIdentity || (
        s is AwaitingSidecarHealth && (e matches StartEvent::HealthObserved { observation, deadline_passed }
            && health_verdict_spec(observation, deadline_passed) == HealthVerdict::Healthy)),
{
}

/// A start ends well only where the runner container, once inspected, reports
/// a state in which it runs.
pub proof fn law_running_only_when_runner_runs(os: HostOs, s: StartState, e: StartEvent)
    ensures
        start_step_spec(os, s, e).0 is Running && !(s is Running) ==> s is CheckingRunner && (
        e matches StartEvent::RunnerInspected { state_present, running, .. } && state_present
            && running == Some(true)),
{
}

/// The sidecar that a start refers to never changes once it is created, and
/// the runner container is created in the network of that very sidecar.
pub proof fn law_sidecar_is_kept(os: HostOs, s: StartState, e: StartEvent)
    requires
        sidecar_of(s) is Some,
    ensures
        sidecar_of(start_step_spec(os, s, e).0) is Some ==> sidecar_of(start_step_spec(os, s, e).0) == sidecar_of(s),
        start_step_spec(os, s, e).1 matches StartAction::CreateRunnerContainer { sidecar_id, .. } ==> Some(sidecar_id)
            == sidecar_of(s),
{
}

/// The sidecar that a start refers to is the container created as its sidecar.
pub proof fn law_sidecar_is_the_created_container(os: HostOs, id: String)
    ensures
        sidecar_of(start_step_spec(os, StartState::CreatingSidecar, StartEvent::ContainerCreated { id }).0)
            == Some(id),
{
}

/// The state that a start reaches from `s` on the events `es`, taken in order.
pub open spec fn run(os: HostOs, s: StartState, es: Seq<StartEvent>) -> StartState
    decreases es.len(),
{
    if es.len() == 0 {
        s
    } else {
        start_step_spec(os, run(os, s, es.drop_last()), es.last()).0
    }
}

/// The image pull finished: the pull's progress stream ended.
pub open spec fn pull_finished(s: StartState, e: StartEvent) -> bool {
    s is PullingImage && e is Succeeded
}

/// The sidecar was seen healthy.
pub open spec fn sidecar_seen_healthy(s: StartState, e: StartEvent) -> bool {
    s is AwaitingSidecarHealth && (e matches StartEvent::HealthObserved { observation, deadline_passed }
        && health_verdict_spec(observation, deadline_passed) == HealthVerdict::Healthy)
}

/// The runner container was inspected and reported running.
pub open spec fn runner_seen_running(s: StartState, e: StartEvent) -> bool {
    s is CheckingRunner && (e matches StartEvent::RunnerInspected { state_present, running, .. } && state_present
        && running == Some(true))
}

/// The start has got past the pull.
pub open spec fn past_pull(s: StartState) -> bool {
    !(s is PullingImage) && !(s is Failed)
}

/// The start has got past the sidecar's health check.
pub open spec fn past_health(s: StartState) -> bool {
    s is AwaitingHostIdentity || s is CreatingRunner || s is StartingRunner || s is CheckingRunner
        || s is CollectingRunnerLogs || s is Running
}

/// A milestone, reached from below it only through a gate, is passed by no run
/// that does not go through that gate.
proof fn lemma_milestone(
    os: HostOs,
    s0: StartState,
    es: Seq<StartEvent>,
    past: spec_fn(StartState) -> bool,
    gate: spec_fn(StartState, StartEvent) -> bool,
)
    requires
        !past(s0),
        forall|s: StartState, e: StartEvent| !past(s) && #[trigger] past(start_step_spec(os, s, e).0) ==> gate(s, e),
    ensures
        past(run(os, s0, es)) ==> exists|i: int| 0 <= i < es.len() && gate(run(os, s0, es.take(i)), #[trigger] es[i]),
    decreases es.len(),
{
    if es.len() > 0 {
        let pre = es.drop_last();
        lemma_milestone(os, s0, pre, past, gate);
        if past(run(os, s0, es)) {
            if past(run(os, s0, pre)) {
                let i = choose|i: int| 0 <= i < pre.len() && gate(run(os, s0, pre.take(i)), #[trigger] pre[i]);
                assert(pre.take(i) =~= es.take(i));
                assert(pre[i] == es[i]);
            } else {
                let i = pre.len() as int;
                assert(es.take(i) =~= pre);
                assert(past(start_step_spec(os, run(os, s0, pre), es.last()).0));
                assert(gate(run(os, s0, es.take(i)), es[i]));
            }
        }
    }
}

/// A start that ends with the runner running has, on its way, finished the
/// pull of the image, seen the sidecar healthy, and seen the runner container
/// running.
pub proof fn law_a_running_start_passed_every_milestone(os: HostOs, es: Seq<StartEvent>)
    requires
        run(os, StartState::PullingImage, es) is Running,
    ensures
        exists|i: int| 0 <= i < es.len() && pull_finished(run(os, StartState::PullingImage, es.take(i)), #[trigger] es[i]),
        exists|i: int| 0 <= i < es.len() && sidecar_seen_healthy(run(os, StartState::PullingImage, es.take(i)), #[trigger] es[i]),
        exists|i: int| 0 <= i < es.len() && runner_seen_running(run(os, StartState::PullingImage, es.take(i)), #[trigger] es[i]),
{
    let s0 = StartState::PullingImage;
    assert forall|s: StartState, e: StartEvent| !past_pull(s) && #[trigger] past_pull(start_step_spec(os, s, e).0)
        implies pull_finished(s, e) by {}
    lemma_milestone(os, s0, es, |s: StartState| past_pull(s), |s: StartState, e: StartEvent| pull_finished(s, e));
    assert forall|s: StartState, e: StartEvent| !past_health(s) && #[trigger] past_health(start_step_spec(os, s, e).0)
        implies sidecar_seen_healthy(s, e) by {}
    lemma_milestone(os, s0, es, |s: StartState| past_health(s), |s: StartState, e: StartEvent| sidecar_seen_healthy(s, e));
    assert forall|s: StartState, e: StartEvent| !(s is Running) && #[trigger] (start_step_spec(os, s, e).0 is Running)
        implies runner_seen_running(s, e) by {}
    lemma_milestone(
        os,
        s0,
        es,
        |s: StartState| s is Running,
        |s: StartState, e: StartEvent| runner_seen_running(s, e),
    );
}

/// No outside call follows a failure: whenever a step puts the start into a
/// failed state, the action it gives is to stop.
pub proof fn law_failure_stops_the_start(os: HostOs, s: StartState, e: StartEvent)
    ensures
        start_step_spec(os, s, e).0 is Failed ==> start_step_spec(os, s, e).1 == StartAction::Stop,
{
}

/// A failed network creation is tolerated exactly when its message contains
/// `Conflict` or `already exists`: the start then goes on with the volume.
/// Any other message ends the start, failed at network creation with that
/// very message, and nothing more is done.
pub proof fn law_network_failure(os: HostOs, message: String)
    ensures
        (contains_seq(message@, "Conflict"@) || contains_seq(message@, "already exists"@)) ==> start_step_spec(
            os,
            StartState::CreatingNetwork,
            StartEvent::CallFailed { message },
        ) == (StartState::CreatingVolume, StartAction::CreateVolume),
        !(contains_seq(message@, "Conflict"@) || contains_seq(message@, "already exists"@)) ==> start_step_spec(
            os,
            StartState::CreatingNetwork,
            StartEvent::CallFailed { message },
        ) == (
            StartState::Failed(StartError::CallFailed { stage: StartStage::CreateNetwork, message }),
            StartAction::Stop,
        ),
{
}

/// A failed pull ends the start at once, failed at the pull with the call's
/// message; the network is not created.
pub proof fn law_pull_failure(os: HostOs, message: String)
    ensures
        start_step_spec(os, StartState::PullingImage, StartEvent::CallFailed { message }) == (
            StartState::Failed(StartError::CallFailed { stage: StartStage::PullImage, message }),
            StartAction::Stop,
        ),
{
}

/// The runner container is created with the process's own user and group on
/// Unix and with 1000/1000 on Windows. Its Docker group is, on Unix, the
/// socket's group where it could be read and is not root, and none otherwise;
/// on Windows it is 0. The sidecar it joins is the one of the state.
pub proof fn law_runner_identity(os: HostOs, sidecar_id: String, uid: u32, gid: u32, docker_socket_gid: Option<u32>)
    ensures
        start_step_spec(
            os,
            StartState::AwaitingHostIdentity { sidecar_id },
            StartEvent::HostIdentity { uid, gid, docker_socket_gid },
        ) == (
            StartState::CreatingRunner { sidecar_id },
            StartAction::CreateRunnerContainer {
                sidecar_id,
                uid: if os == HostOs::Unix { uid } else { 1000 },
                gid: if os == HostOs::Unix { gid } else { 1000 },
                docker_gid: if os == HostOs::Unix {
                    if docker_socket_gid matches Some(g) && g != 0 { docker_socket_gid } else { None }
                } else {
                    Some(0)
                },
            },
        ),
{
}

/// Each outside call that succeeds moves the start on to the next one, in the
/// order pull, network, volume, sidecar creation and start, health wait (60 s),
/// host identity, runner creation and start, runner inspection (after 3 s),
/// and the ids that Docker gives the containers are the ones used afterwards.
pub proof fn law_successful_steps(os: HostOs, sidecar_id: String, runner_id: String, id: String)
    ensures
        start_step_spec(os, StartState::PullingImage, StartEvent::PullProgress { error_detail: None }) == (
            StartState::PullingImage,
            StartAction::ReadPullProgress,
        ),
        start_step_spec(os, StartState::PullingImage, StartEvent::Succeeded) == (
            StartState::CreatingNetwork,
            StartAction::CreateNetwork,
        ),
        start_step_spec(os, StartState::CreatingNetwork, StartEvent::Succeeded) == (
            StartState::CreatingVolume,
            StartAction::CreateVolume,
        ),
        start_step_spec(os, StartState::CreatingVolume, StartEvent::Succeeded) == (
            StartState::CreatingSidecar,
            StartAction::CreateSidecarContainer,
        ),
        start_step_spec(os, StartState::CreatingSidecar, StartEvent::ContainerCreated { id }) == (
            StartState::StartingSidecar { sidecar_id: id },
            StartAction::StartContainer { id },
        ),
        start_step_spec(os, StartState::StartingSidecar { sidecar_id }, StartEvent::Succeeded) == (
            StartState::AwaitingSidecarHealth { sidecar_id },
            StartAction::BeginHealthWait { container_id: sidecar_id, timeout_secs: 60 },
        ),
        start_step_spec(os, StartState::CreatingRunner { sidecar_id }, StartEvent::ContainerCreated { id }) == (
            StartState::StartingRunner { sidecar_id, runner_container_id: id },
            StartAction::StartContainer { id },
        ),
        start_step_spec(
            os,
            StartState::StartingRunner { sidecar_id, runner_container_id: runner_id },
            StartEvent::Succeeded,
        ) == (
            StartState::CheckingRunner { sidecar_id, runner_container_id: runner_id },
            StartAction::InspectRunnerAfter { container_id: runner_id, delay_secs: 3 },
        ),
{
}

/// The pull is refused exactly when a progress message carries an error
/// detail; the start then fails with that detail.
pub proof fn law_pull_rejection(os: HostOs, detail: String)
    ensures
        start_step_spec(os, StartState::PullingImage, StartEvent::PullProgress { error_detail: Some(detail) }) == (
            StartState::Failed(StartError::PullRejected { detail }),
            StartAction::Stop,
        ),
{
}

/// One health observation of the sidecar: a healthy one moves on to the host
/// identity, an unhealthy, stopped or late one fails the start naming the
/// sidecar, and any other leads to another inspection after 500 ms.
pub proof fn law_health_step(os: HostOs, sidecar_id: String, observation: HealthObservation, deadline_passed: bool)
    ensures
        ({
            let r = start_step_spec(
                os,
                StartState::AwaitingSidecarHealth { sidecar_id },
                StartEvent::HealthObserved { observation, deadline_passed },
            );
            match health_verdict_spec(observation, deadline_passed) {
                HealthVerdict::Healthy => r == (
                    StartState::AwaitingHostIdentity { sidecar_id },
                    StartAction::QueryHostIdentity,
                ),
                HealthVerdict::Unhealthy => r == (
                    StartState::Failed(StartError::SidecarUnhealthy { sidecar_id }),
                    StartAction::Stop,
                ),
                HealthVerdict::Stopped => r == (
                    StartState::Failed(StartError::SidecarStopped { sidecar_id }),
                    StartAction::Stop,
                ),
                HealthVerdict::TimedOut => r == (
                    StartState::Failed(StartError::SidecarTimedOut { sidecar_id, timeout_secs: 60 }),
                    StartAction::Stop,
                ),
                HealthVerdict::Pending => r == (
                    StartState::AwaitingSidecarHealth { sidecar_id },
                    StartAction::PollHealth { container_id: sidecar_id, delay_ms: 500 },
                ),
            }
        }),
{
}

/// The inspection of the runner: no state fails the start; a running
/// container ends it well beside the sidecar; otherwise the last 50 log lines
/// are fetched and the start then fails with the exit code, -1 where none was
/// reported, whether or not the logs could be read.
pub proof fn law_runner_check(
    os: HostOs,
    sidecar_id: String,
    runner_id: String,
    state_present: bool,
    running: Option<bool>,
    exit_code: Option<i64>,
    logs_event: StartEvent,
)
    requires
        logs_event is Succeeded || logs_event is CallFailed,
    ensures
        ({
            let r = start_step_spec(
                os,
                StartState::CheckingRunner { sidecar_id, runner_container_id: runner_id },
                StartEvent::RunnerInspected { state_present, running, exit_code },
            );
            let code: i64 = match exit_code { Some(c) => c, None => -1i64 };
            &&& !state_present ==> r == (StartState::Failed(StartError::NoContainerState), StartAction::Stop)
            &&& state_present && running == Some(true) ==> r == (
                StartState::Running { sidecar_id },
                StartAction::Stop,
            )
            &&& state_present && running != Some(true) ==> r == (
                StartState::CollectingRunnerLogs { exit_code: code },
                StartAction::CollectLogs { container_id: runner_id, tail: 50 },
            )
        }),
        start_step_spec(os, StartState::CollectingRunnerLogs { exit_code: -1i64 }, logs_event) == (
            StartState::Failed(StartError::RunnerExited { exit_code: -1i64 }),
            StartAction::Stop,
        ),
        exit_code matches Some(c) ==> start_step_spec(os, StartState::CollectingRunnerLogs { exit_code: c }, logs_event)
            == (StartState::Failed(StartError::RunnerExited { exit_code: c }), StartAction::Stop),
{
}

/// An event that does not belong to the state leaves it as it is: a step
/// that does nothing changes nothing, and a step that changes the state always
/// says what to do next.
pub proof fn law_idle_changes_nothing(os: HostOs, s: StartState, e: StartEvent)
    ensures
        start_step_spec(os, s, e).1 == StartAction::Idle ==> start_step_spec(os, s, e).0 == s,
        start_step_spec(os, s, e).1 == StartAction::Idle ==> !is_terminal(s),
{
}

} // verus!
