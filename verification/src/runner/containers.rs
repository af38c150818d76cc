//! The Docker objects that make up a runner: its network, the volume and
//! container of its mesh sidecar, and the runner container itself.

use vstd::prelude::*;
use crate::cli::RunnerStartArgs;
use crate::fmt::{decimal, prefixed_decimal};
use crate::grpc::RegisterRunnerResponse;
use crate::image::{build_full_image_name, full_image_name};
use crate::platform::{
    DeviceMapping, HostOs, cap_add_for, devices_for, docker_sock_bind, docker_sock_bind_for,
    opt_devices_view, opt_strings_view, unix_only_cap_add, unix_only_devices,
};
use crate::text::{concat2, concat3};

verus! {

/// The health check of a container: a command and its timing in nanoseconds.
#[derive(Debug)]
pub struct HealthConfig {
    pub test: Vec<String>,
    pub interval: i64,
    pub timeout: i64,
    pub retries: i64,
    pub start_period: i64,
    pub start_interval: i64,
}

/// How a container is placed on the host.
#[derive(Debug)]
pub struct HostConfig {
    pub network_mode: String,
    pub cap_add: Option<Vec<String>>,
    pub devices: Option<Vec<DeviceMapping>>,
    pub binds: Vec<String>,
    pub nano_cpus: Option<i64>,
    pub memory: Option<i64>,
}

/// The configuration a container is created with.
#[derive(Debug)]
pub struct ContainerConfig {
    pub image: String,
    pub env: Vec<String>,
    pub healthcheck: Option<HealthConfig>,
    pub host_config: HostConfig,
}

/// A request to create a named container.
#[derive(Debug)]
pub struct CreateContainerRequest {
    pub name: String,
    pub platform: String,
    pub config: ContainerConfig,
}

/// A request to create a network.
#[derive(Debug)]
pub struct NetworkRequest {
    pub name: String,
    pub driver: String,
}

/// A request to create a volume.
#[derive(Debug)]
pub struct VolumeRequest {
    pub name: String,
    pub driver: String,
}

/// Credentials for a container registry.
#[derive(Debug)]
pub struct RegistryAuth {
    pub username: String,
    pub password: String,
    pub serveraddress: String,
}

/// A request to pull an image, with the credentials to pull it with.
#[derive(Debug)]
pub struct PullRequest {
    pub image: String,
    pub credentials: Option<RegistryAuth>,
}

/// Seconds that the mesh sidecar is given to become healthy.
pub const SIDECAR_HEALTH_TIMEOUT_SECS: u64 = 60;

/// One second in nanoseconds.
pub const NANOS_PER_SEC: i64 = 1_000_000_000;

/// The network of the runner `runner_id`.
pub open spec fn network_name(runner_id: Seq<char>) -> Seq<char> {
    "runner-net-"@ + runner_id
}

/// The name of the mesh sidecar of the runner `runner_id`.
pub open spec fn sidecar_name(runner_id: Seq<char>) -> Seq<char> {
    "runner-ts-"@ + runner_id
}

/// The name of the container of the runner `runner_id`.
pub open spec fn runner_name(runner_id: Seq<char>) -> Seq<char> {
    "runner-"@ + runner_id
}

/// The environment of the mesh sidecar.
pub open spec fn sidecar_env_spec(reg: RegisterRunnerResponse, runner_id: Seq<char>) -> Seq<Seq<char>> {
    seq![
        "TS_AUTHKEY="@ + reg.headscale_auth_key@,
        "TS_LOGIN_SERVER="@ + reg.headscale_url@,
        "TS_USERSPACE=false"@,
        "TS_STATE_DIR=/var/lib/tailscale"@,
        "TS_HOSTNAME=runner-"@ + runner_id,
        "TS_EXTRA_ARGS=--accept-dns=false --login-server="@ + reg.headscale_url@ + " --accept-routes=false"@,
        "TS_AUTH_ONCE=true"@,
        "TS_ACCEPT_DNS=false"@,
        "TS_ENABLE_HEALTH_CHECK=true"@,
        "TS_LOCAL_ADDR_PORT=127.0.0.1:41234"@,
        "TS_SOCKET=/var/run/tailscale-run/tailscaled.sock"@,
    ]
}

/// The health check command of the mesh sidecar.
pub open spec fn sidecar_health_test() -> Seq<Seq<char>> {
    seq!["CMD"@, "wget"@, "--spider"@, "-q"@, "http://127.0.0.1:41234/healthz"@]
}

/// The health check of the mesh sidecar: probe every 5 s with a 10 s timeout
/// and 3 retries, after a 5 s start period probed every 5 s.
pub open spec fn is_sidecar_health(h: HealthConfig) -> bool {
    &&& h.test.deep_view() == sidecar_health_test()
    &&& h.interval == 5 * NANOS_PER_SEC
    &&& h.timeout == 10 * NANOS_PER_SEC
    &&& h.retries == 3
    &&& h.start_period == 5 * NANOS_PER_SEC
    &&& h.start_interval == 5 * NANOS_PER_SEC
}

/// The environment of the runner container, before the Docker group is added.
pub open spec fn runner_env_base(
    reg: RegisterRunnerResponse,
    args: RunnerStartArgs,
    cli_version: Seq<char>,
    uid: u32,
    gid: u32,
    sidecar_id: Seq<char>,
) -> Seq<Seq<char>> {
    seq![
        "LOCAL_UID="@ + decimal(uid as nat),
        "LOCAL_GID="@ + decimal(gid as nat),
        "CONNECTOR_CP_ADDRESS="@ + reg.cp_mesh_address@,
        "CONNECTOR_INSECURE=true"@,
        "CONNECTOR_TOKEN="@ + reg.runner_token@,
        "CONNECTOR_VERSION="@ + cli_version,
        "CONNECTOR_SEND_BUF=50"@,
        "CONNECTOR_RECV_BUF=20"@,
        "REGISTRY_ENDPOINT="@ + reg.registry_endpoint@,
        "REGISTRY_USERNAME="@ + reg.registry_username@,
        "REGISTRY_PASSWORD="@ + reg.registry_password@,
        "REGISTRY_INSECURE=true"@,
        "REGISTRY_TOKEN="@,
        "HOST_DATA_PATH="@ + args.host_data_path@,
        "HEARTBEATS_INTERVAL_SEC=5"@,
        "METRICS_INTERVAL_SEC=30"@,
        "CHILD_NETWORK_MODE=container:"@ + sidecar_id,
    ]
}

/// The environment of the runner container: the base environment, then the
/// Docker group where it is known.
pub open spec fn runner_env_spec(
    reg: RegisterRunnerResponse,
    args: RunnerStartArgs,
    cli_version: Seq<char>,
    uid: u32,
    gid: u32,
    sidecar_id: Seq<char>,
    docker_gid: Option<u32>,
) -> Seq<Seq<char>> {
    let base = runner_env_base(reg, args, cli_version, uid, gid, sidecar_id);
    match docker_gid {
        Some(g) => base.push("DOCKER_GID="@ + decimal(g as nat)),
        None => base,
    }
}

/// The memory limit of the runner, in bytes: the megabytes given, read as a
/// signed 64-bit number, times 2^20.
pub open spec fn memory_limit(memory_mb: u64) -> int {
    (memory_mb as i64) * 1048576
}

/// Whether the memory limit of the runner fits a signed 64-bit number.
pub open spec fn memory_limit_fits(memory_mb: u64) -> bool {
    i64::MIN <= memory_limit(memory_mb) <= i64::MAX
}

/// The credentials used to pull from a registry: given only where both the
/// user name and the password are non-empty.
pub open spec fn uses_credentials(username: Seq<char>, password: Seq<char>) -> bool {
    username.len() > 0 && password.len() > 0
}

/// The memory limit of the runner in bytes for `memory_mb` megabytes, where it
/// fits a signed 64-bit number.
pub fn runner_memory_limit(memory_mb: u64) -> (res: Option<i64>)
    ensures
        match res {
            Some(m) => memory_limit_fits(memory_mb) && m == memory_limit(memory_mb),
            None => !memory_limit_fits(memory_mb),
        },
{
    let mb: i64 = memory_mb as i64;
    mb.checked_mul(1048576)
}

/// Credentials for the registry at `server_address`.
pub fn build_registry_auth(username: &str, password: &str, server_address: &str) -> (res: RegistryAuth)
    ensures
        res.username@ == username@,
        res.password@ == password@,
        res.serveraddress@ == server_address@,
{
    RegistryAuth {
        username: username.to_owned(),
        password: password.to_owned(),
        serveraddress: server_address.to_owned(),
    }
}

/// What to pull for the runner registered as `reg`: its image in its
/// registry, with the registry's credentials where both are given.
pub fn pull_request(reg: &RegisterRunnerResponse) -> (res: PullRequest)
    ensures
        res.image@ == full_image_name(reg.registry_endpoint@, reg.runner_image@),
        uses_credentials(reg.registry_username@, reg.registry_password@) ==> (res.credentials matches Some(c)
            && c.username@ == reg.registry_username@
            && c.password@ == reg.registry_password@
            && c.serveraddress@ == reg.registry_endpoint@),
        !uses_credentials(reg.registry_username@, reg.registry_password@) ==> res.credentials is None,
        res.credentials is Some <==> (reg.registry_username@.len() > 0 && reg.registry_password@.len() > 0),
{
    let image = build_full_image_name(reg.registry_endpoint.as_str(), reg.runner_image.as_str());
    let credentials = if !reg.registry_username.as_str().is_empty() && !reg.registry_password.as_str().is_empty() {
        Some(
            build_registry_auth(
                reg.registry_username.as_str(),
                reg.registry_password.as_str(),
                reg.registry_endpoint.as_str(),
            ),
        )
    } else {
        None
    };
    PullRequest { image, credentials }
}

/// The bridge network that isolates the runner `runner_id`.
pub fn network_request(runner_id: &str) -> (res: NetworkRequest)
    ensures
        res.name@ == network_name(runner_id@),
        res.driver@ == "bridge"@,
{
    NetworkRequest { name: concat2("runner-net-", runner_id), driver: "bridge".to_owned() }
}

/// The local volume that keeps the mesh state of the runner `runner_id`.
pub fn volume_request(runner_id: &str) -> (res: VolumeRequest)
    ensures
        res.name@ == "ts-run-volume-"@ + runner_id@,
        res.driver@ == "local"@,
{
    VolumeRequest { name: concat2("ts-run-volume-", runner_id), driver: "local".to_owned() }
}

/// The environment of the mesh sidecar of the runner `runner_id`.
pub fn sidecar_env(reg: &RegisterRunnerResponse, runner_id: &str) -> (res: Vec<String>)
    ensures
        res.deep_view() == sidecar_env_spec(*reg, runner_id@),
{
    let mut env: Vec<String> = Vec::new();
    env.push(concat2("TS_AUTHKEY=", reg.headscale_auth_key.as_str()));
    env.push(concat2("TS_LOGIN_SERVER=", reg.headscale_url.as_str()));
    env.push("TS_USERSPACE=false".to_owned());
    env.push("TS_STATE_DIR=/var/lib/tailscale".to_owned());
    env.push(concat2("TS_HOSTNAME=runner-", runner_id));
    env.push(
        concat3(
            "TS_EXTRA_ARGS=--accept-dns=false --login-server=",
            reg.headscale_url.as_str(),
            " --accept-routes=false",
        ),
    );
    env.push("TS_AUTH_ONCE=true".to_owned());
    env.push("TS_ACCEPT_DNS=false".to_owned());
    env.push("TS_ENABLE_HEALTH_CHECK=true".to_owned());
    env.push("TS_LOCAL_ADDR_PORT=127.0.0.1:41234".to_owned());
    env.push("TS_SOCKET=/var/run/tailscale-run/tailscaled.sock".to_owned());
    assert(env.deep_view() =~= sidecar_env_spec(*reg, runner_id@));
    env
}

/// The health check of the mesh sidecar.
pub fn sidecar_healthcheck() -> (res: HealthConfig)
    ensures
        is_sidecar_health(res),
{
    let mut test: Vec<String> = Vec::new();
    test.push("CMD".to_owned());
    test.push("wget".to_owned());
    test.push("--spider".to_owned());
    test.push("-q".to_owned());
    test.push("http://127.0.0.1:41234/healthz".to_owned());
    assert(test.deep_view() =~= sidecar_health_test());
    HealthConfig {
        test,
        interval: 5_000_000_000,
        timeout: 10_000_000_000,
        retries: 3,
        start_period: 5_000_000_000,
        start_interval: 5_000_000_000,
    }
}

/// The container of the mesh sidecar of the runner registered as `reg`, on `os`.
pub fn sidecar_create_request(reg: &RegisterRunnerResponse, os: HostOs) -> (res: CreateContainerRequest)
    ensures
        res.name@ == sidecar_name(reg.runner_token@),
        res.platform@ == "linux"@,
        res.config.image@ == "tailscale/tailscale:latest"@,
        res.config.env.deep_view() == sidecar_env_spec(*reg, reg.runner_token@),
        res.config.healthcheck matches Some(h) && is_sidecar_health(h),
        res.config.host_config.network_mode@ == network_name(reg.runner_token@),
        opt_strings_view(res.config.host_config.cap_add) == cap_add_for(os),
        opt_devices_view(res.config.host_config.devices) == devices_for(os),
        res.config.host_config.binds.deep_view() == seq!["ts-run-volume:/var/lib/tailscale"@],
        res.config.host_config.nano_cpus is None,
        res.config.host_config.memory is None,
{
    let runner_id = reg.runner_token.as_str();
    let mut binds: Vec<String> = Vec::new();
    binds.push("ts-run-volume:/var/lib/tailscale".to_owned());
    assert(binds.deep_view() =~= seq!["ts-run-volume:/var/lib/tailscale"@]);
    CreateContainerRequest {
        name: concat2("runner-ts-", runner_id),
        platform: "linux".to_owned(),
        config: ContainerConfig {
            image: "tailscale/tailscale:latest".to_owned(),
            env: sidecar_env(reg, runner_id),
            healthcheck: Some(sidecar_healthcheck()),
            host_config: HostConfig {
                network_mode: concat2("runner-net-", runner_id),
                cap_add: unix_only_cap_add(os),
                devices: unix_only_devices(os),
                binds,
                nano_cpus: None,
                memory: None,
            },
        },
    }
}

/// The environment of the runner container.
pub fn runner_env(
    reg: &RegisterRunnerResponse,
    args: &RunnerStartArgs,
    cli_version: &str,
    uid: u32,
    gid: u32,
    sidecar_id: &str,
    docker_gid: Option<u32>,
) -> (res: Vec<String>)
    ensures
        res.deep_view() == runner_env_spec(*reg, *args, cli_version@, uid, gid, sidecar_id@, docker_gid),
{
    let mut env: Vec<String> = Vec::new();
    env.push(prefixed_decimal("LOCAL_UID=", uid));
    env.push(prefixed_decimal("LOCAL_GID=", gid));
    env.push(concat2("CONNECTOR_CP_ADDRESS=", reg.cp_mesh_address.as_str()));
    env.push("CONNECTOR_INSECURE=true".to_owned());
    env.push(concat2("CONNECTOR_TOKEN=", reg.runner_token.as_str()));
    env.push(concat2("CONNECTOR_VERSION=", cli_version));
    env.push("CONNECTOR_SEND_BUF=50".to_owned());
    env.push("CONNECTOR_RECV_BUF=20".to_owned());
    env.push(concat2("REGISTRY_ENDPOINT=", reg.registry_endpoint.as_str()));
    env.push(concat2("REGISTRY_USERNAME=", reg.registry_username.as_str()));
    env.push(concat2("REGISTRY_PASSWORD=", reg.registry_password.as_str()));
    env.push("REGISTRY_INSECURE=true".to_owned());
    env.push("REGISTRY_TOKEN=".to_owned());
    env.push(concat2("HOST_DATA_PATH=", args.host_data_path.as_str()));
    env.push("HEARTBEATS_INTERVAL_SEC=5".to_owned());
    env.push("METRICS_INTERVAL_SEC=30".to_owned());
    env.push(concat2("CHILD_NETWORK_MODE=container:", sidecar_id));
    let ghost base = runner_env_base(*reg, *args, cli_version@, uid, gid, sidecar_id@);
    assert(env.deep_view() =~= base);
    match docker_gid {
        Some(g) => {
            env.push(prefixed_decimal("DOCKER_GID=", g));
            assert(env.deep_view() =~= base.push("DOCKER_GID="@ + decimal(g as nat)));
        },
        None => {},
    }
    env
}

/// The container of the runner registered as `reg`, started by a client of
/// version `cli_version` on `os`, inside the network of the sidecar
/// `sidecar_id`, writing files as `uid`/`gid`, with the Docker group
/// `docker_gid` where it is known.
pub fn runner_create_request(
    reg: &RegisterRunnerResponse,
    args: &RunnerStartArgs,
    cli_version: &str,
    os: HostOs,
    sidecar_id: &str,
    uid: u32,
    gid: u32,
    docker_gid: Option<u32>,
) -> (res: CreateContainerRequest)
    requires
        memory_limit_fits(args.memory_mb),
    ensures
        res.name@ == runner_name(reg.runner_token@),
        res.platform@ == "linux"@,
        res.config.image@ == full_image_name(reg.registry_endpoint@, reg.runner_image@),
        res.config.env.deep_view() == runner_env_spec(*reg, *args, cli_version@, uid, gid, sidecar_id@, docker_gid),
        res.config.healthcheck is None,
        res.config.host_config.network_mode@ == "container:"@ + sidecar_id@,
        res.config.host_config.cap_add is None,
        res.config.host_config.devices is None,
        res.config.host_config.binds.deep_view() == seq![
            docker_sock_bind_for(os),
            args.host_data_path@ + ":/data"@,
        ],
        res.config.host_config.nano_cpus matches Some(c) && c == args.cpu_cores * NANOS_PER_SEC,
        res.config.host_config.memory matches Some(m) && m == memory_limit(args.memory_mb),
{
    let mut binds: Vec<String> = Vec::new();
    binds.push(docker_sock_bind(os));
    binds.push(concat2(args.host_data_path.as_str(), ":/data"));
    assert(binds.deep_view() =~= seq![docker_sock_bind_for(os), args.host_data_path@ + ":/data"@]);
    let cpus: i64 = args.cpu_cores as i64;
    let mem_mb: i64 = args.memory_mb as i64;
    let memory: i64 = mem_mb * 1024 * 1024;
    CreateContainerRequest {
        name: concat2("runner-", reg.runner_token.as_str()),
        platform: "linux".to_owned(),
        config: ContainerConfig {
            image: build_full_image_name(reg.registry_endpoint.as_str(), reg.runner_image.as_str()),
            env: runner_env(reg, args, cli_version, uid, gid, sidecar_id, docker_gid),
            healthcheck: None,
            host_config: HostConfig {
                network_mode: concat2("container:", sidecar_id),
                cap_add: None,
                devices: None,
                binds,
                nano_cpus: Some(cpus * 1_000_000_000),
                memory: Some(memory),
            },
        },
    }
}

/// The runner's environment: its first two entries are the user and group
/// ids given, in decimal, whatever the Docker group; the entries after them do
/// not depend on the ids or the Docker group; without a Docker group there are
/// 17 entries, and a Docker group only adds one last entry naming it.
pub proof fn law_runner_env(
    reg: RegisterRunnerResponse,
    args: RunnerStartArgs,
    cli_version: Seq<char>,
    uid: u32,
    gid: u32,
    other_uid: u32,
    other_gid: u32,
    sidecar_id: Seq<char>,
    docker_gid: Option<u32>,
    g: u32,
)
    ensures
        runner_env_spec(reg, args, cli_version, uid, gid, sidecar_id, docker_gid)[0] == "LOCAL_UID="@ + decimal(
            uid as nat,
        ),
        runner_env_spec(reg, args, cli_version, uid, gid, sidecar_id, docker_gid)[1] == "LOCAL_GID="@ + decimal(
            gid as nat,
        ),
        runner_env_spec(reg, args, cli_version, uid, gid, sidecar_id, None).len() == 17,
        runner_env_spec(reg, args, cli_version, uid, gid, sidecar_id, Some(g)) == runner_env_spec(
            reg,
            args,
            cli_version,
            uid,
            gid,
            sidecar_id,
            None,
        ).push("DOCKER_GID="@ + decimal(g as nat)),
        runner_env_spec(reg, args, cli_version, uid, gid, sidecar_id, docker_gid).subrange(2, 17)
            == runner_env_spec(reg, args, cli_version, other_uid, other_gid, sidecar_id, None).subrange(2, 17),
        runner_env_spec(reg, args, cli_version, uid, gid, sidecar_id, docker_gid)[2] == "CONNECTOR_CP_ADDRESS="@
            + reg.cp_mesh_address@,
        runner_env_spec(reg, args, cli_version, uid, gid, sidecar_id, docker_gid)[4] == "CONNECTOR_TOKEN="@
            + reg.runner_token@,
        runner_env_spec(reg, args, cli_version, uid, gid, sidecar_id, docker_gid)[5] == "CONNECTOR_VERSION="@
            + cli_version,
        runner_env_spec(reg, args, cli_version, uid, gid, sidecar_id, docker_gid)[13] == "HOST_DATA_PATH="@
            + args.host_data_path@,
        runner_env_spec(reg, args, cli_version, uid, gid, sidecar_id, docker_gid)[16]
            == "CHILD_NETWORK_MODE=container:"@ + sidecar_id,
{
    let a = runner_env_spec(reg, args, cli_version, uid, gid, sidecar_id, docker_gid);
    let b = runner_env_spec(reg, args, cli_version, other_uid, other_gid, sidecar_id, None);
    assert(a.subrange(2, 17) =~= b.subrange(2, 17));
}

/// The memory limit is the megabytes times 2^20 bytes, for every number of
/// megabytes that is a non-negative 64-bit signed number; it fits exactly up
/// to 2^43 - 1 megabytes.
pub proof fn law_memory_limit(memory_mb: u64)
    requires
        memory_mb <= i64::MAX,
    ensures
        memory_limit(memory_mb) == memory_mb * 1048576,
        memory_limit_fits(memory_mb) <==> memory_mb < 0x800_0000_0000,
{
}

/// The mesh sidecar's environment has 11 entries: the auth key, the login
/// server (twice: alone and in the extra arguments) and the host name
/// `runner-<id>` come from the registration; every other entry is the same
/// for all runners.
pub proof fn law_sidecar_env(
    reg: RegisterRunnerResponse,
    other: RegisterRunnerResponse,
    runner_id: Seq<char>,
    other_id: Seq<char>,
)
    ensures
        sidecar_env_spec(reg, runner_id).len() == 11,
        sidecar_env_spec(reg, runner_id)[0] == "TS_AUTHKEY="@ + reg.headscale_auth_key@,
        sidecar_env_spec(reg, runner_id)[1] == "TS_LOGIN_SERVER="@ + reg.headscale_url@,
        sidecar_env_spec(reg, runner_id)[4] == "TS_HOSTNAME=runner-"@ + runner_id,
        sidecar_env_spec(reg, runner_id)[5] == "TS_EXTRA_ARGS=--accept-dns=false --login-server="@
            + reg.headscale_url@ + " --accept-routes=false"@,
        forall|i: int| 0 <= i < 11 && i != 0 && i != 1 && i != 4 && i != 5 ==> #[trigger] sidecar_env_spec(
            reg,
            runner_id,
        )[i] == sidecar_env_spec(other, other_id)[i],
{
}

} // verus!
