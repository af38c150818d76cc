use mgs_cli::cli::RunnerStartArgs;
use mgs_cli::grpc::RegisterRunnerResponse;
use mgs_cli::platform::HostOs;
use mgs_cli::runner::containers::{
    build_registry_auth, network_request, runner_memory_limit, pull_request, runner_create_request, runner_env, sidecar_create_request,
    sidecar_env, volume_request,
};

fn reg() -> RegisterRunnerResponse {
    RegisterRunnerResponse {
        runner_image: "runner:1".to_string(),
        registry_endpoint: "https://reg.example/".to_string(),
        registry_username: "bob".to_string(),
        registry_password: "pw".to_string(),
        cp_mesh_address: "100.64.0.1:7000".to_string(),
        runner_token: "tok42".to_string(),
        headscale_url: "https://hs.example".to_string(),
        headscale_auth_key: "key-1".to_string(),
    }
}

fn args() -> RunnerStartArgs {
    RunnerStartArgs {
        cp_address_runner: "cp:443".to_string(),
        join_secret: "s3cret".to_string(),
        host_data_path: "/srv/data".to_string(),
        host_data_bind: "/data".to_string(),
        cpu_cores: 2,
        memory_mb: 4096,
        disk_mb: 20480,
    }
}

#[test]
fn sidecar_environment() {
    let env = sidecar_env(&reg(), "tok42");
    assert_eq!(
        env,
        vec![
            "TS_AUTHKEY=key-1",
            "TS_LOGIN_SERVER=https://hs.example",
            "TS_USERSPACE=false",
            "TS_STATE_DIR=/var/lib/tailscale",
            "TS_HOSTNAME=runner-tok42",
            "TS_EXTRA_ARGS=--accept-dns=false --login-server=https://hs.example --accept-routes=false",
            "TS_AUTH_ONCE=true",
            "TS_ACCEPT_DNS=false",
            "TS_ENABLE_HEALTH_CHECK=true",
            "TS_LOCAL_ADDR_PORT=127.0.0.1:41234",
            "TS_SOCKET=/var/run/tailscale-run/tailscaled.sock",
        ]
    );
}

#[test]
fn runner_environment_with_and_without_docker_group() {
    let env = runner_env(&reg(), &args(), "0.3.1", 1001, 1002, "abc123", Some(998));
    assert_eq!(
        env,
        vec![
            "LOCAL_UID=1001",
            "LOCAL_GID=1002",
            "CONNECTOR_CP_ADDRESS=100.64.0.1:7000",
            "CONNECTOR_INSECURE=true",
            "CONNECTOR_TOKEN=tok42",
            "CONNECTOR_VERSION=0.3.1",
            "CONNECTOR_SEND_BUF=50",
            "CONNECTOR_RECV_BUF=20",
            "REGISTRY_ENDPOINT=https://reg.example/",
            "REGISTRY_USERNAME=bob",
            "REGISTRY_PASSWORD=pw",
            "REGISTRY_INSECURE=true",
            "REGISTRY_TOKEN=",
            "HOST_DATA_PATH=/srv/data",
            "HEARTBEATS_INTERVAL_SEC=5",
            "METRICS_INTERVAL_SEC=30",
            "CHILD_NETWORK_MODE=container:abc123",
            "DOCKER_GID=998",
        ]
    );
    let env = runner_env(&reg(), &args(), "0.3.1", 0, 0, "abc123", None);
    assert_eq!(env.len(), 17);
    assert_eq!(env[0], "LOCAL_UID=0");
    assert!(!env.iter().any(|e| e.starts_with("DOCKER_GID=")));
}

#[test]
fn sidecar_container_on_unix_and_windows() {
    let r = sidecar_create_request(&reg(), HostOs::Unix);
    assert_eq!(r.name, "runner-ts-tok42");
    assert_eq!(r.platform, "linux");
    assert_eq!(r.config.image, "tailscale/tailscale:latest");
    assert_eq!(r.config.env.len(), 11);
    let h = r.config.healthcheck.as_ref().unwrap();
    assert_eq!(h.test, vec!["CMD", "wget", "--spider", "-q", "http://127.0.0.1:41234/healthz"]);
    assert_eq!(h.interval, 5_000_000_000);
    assert_eq!(h.timeout, 10_000_000_000);
    assert_eq!(h.retries, 3);
    assert_eq!(h.start_period, 5_000_000_000);
    assert_eq!(h.start_interval, 5_000_000_000);
    let host = &r.config.host_config;
    assert_eq!(host.network_mode, "runner-net-tok42");
    assert_eq!(host.cap_add, Some(vec!["NET_ADMIN".to_string()]));
    let devices = host.devices.as_ref().unwrap();
    assert_eq!(devices.len(), 1);
    assert_eq!(devices[0].path_on_host.as_deref(), Some("/dev/net/tun"));
    assert_eq!(devices[0].path_in_container.as_deref(), Some("/dev/net/tun"));
    assert_eq!(devices[0].cgroup_permissions.as_deref(), Some("rwm"));
    assert_eq!(host.binds, vec!["ts-run-volume:/var/lib/tailscale"]);
    assert_eq!(host.nano_cpus, None);
    assert_eq!(host.memory, None);

    let w = sidecar_create_request(&reg(), HostOs::Windows);
    assert!(w.config.host_config.cap_add.is_none());
    assert!(w.config.host_config.devices.is_none());
}

#[test]
fn runner_container_resources_and_binds() {
    let r = runner_create_request(&reg(), &args(), "0.3.1", HostOs::Unix, "side1", 1000, 1000, Some(999));
    assert_eq!(r.name, "runner-tok42");
    assert_eq!(r.platform, "linux");
    assert_eq!(r.config.image, "reg.example/runner:1");
    assert!(r.config.healthcheck.is_none());
    let host = &r.config.host_config;
    assert_eq!(host.network_mode, "container:side1");
    assert_eq!(host.binds, vec!["/var/run/docker.sock:/var/run/docker.sock", "/srv/data:/data"]);
    assert_eq!(host.nano_cpus, Some(2_000_000_000));
    assert_eq!(host.memory, Some(4096 * 1024 * 1024));
    assert!(host.cap_add.is_none());
    assert!(host.devices.is_none());
    assert_eq!(r.config.env.last().unwrap(), "DOCKER_GID=999");

    let w = runner_create_request(&reg(), &args(), "0.3.1", HostOs::Windows, "side1", 1000, 1000, None);
    assert_eq!(w.config.host_config.binds[0], "//./pipe/docker_engine://./pipe/docker_engine");
}

#[test]
fn largest_cpu_count_fits() {
    let mut a = args();
    a.cpu_cores = u32::MAX;
    let r = runner_create_request(&reg(), &a, "v", HostOs::Unix, "s", 1, 1, None);
    assert_eq!(r.config.host_config.nano_cpus, Some(u32::MAX as i64 * 1_000_000_000));
}

#[test]
fn network_volume_and_pull() {
    let n = network_request("tok42");
    assert_eq!(n.name, "runner-net-tok42");
    assert_eq!(n.driver, "bridge");
    let v = volume_request("tok42");
    assert_eq!(v.name, "ts-run-volume-tok42");
    assert_eq!(v.driver, "local");

    let p = pull_request(&reg());
    assert_eq!(p.image, "reg.example/runner:1");
    let c = p.credentials.unwrap();
    assert_eq!(c.username, "bob");
    assert_eq!(c.password, "pw");
    assert_eq!(c.serveraddress, "https://reg.example/");

    let mut anonymous = reg();
    anonymous.registry_password = String::new();
    assert!(pull_request(&anonymous).credentials.is_none());
    let mut no_user = reg();
    no_user.registry_username = String::new();
    assert!(pull_request(&no_user).credentials.is_none());
}

#[test]
fn registry_auth_fields() {
    let a = build_registry_auth("u", "p", "srv");
    assert_eq!((a.username.as_str(), a.password.as_str(), a.serveraddress.as_str()), ("u", "p", "srv"));
}

#[test]
fn memory_limit_check() {
    assert_eq!(runner_memory_limit(4096), Some(4096 * 1024 * 1024));
    assert_eq!(runner_memory_limit(0), Some(0));
    assert_eq!(runner_memory_limit(1u64 << 43), None);
    assert_eq!(runner_memory_limit((1u64 << 43) - 1), Some(((1i64 << 43) - 1) * 1048576));
    // Megabytes beyond i64::MAX wrap to a negative count, as a cast does.
    assert_eq!(runner_memory_limit(u64::MAX), Some(-1048576));
}
