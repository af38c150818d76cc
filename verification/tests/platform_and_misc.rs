use mgs_cli::config::config_path;
use mgs_cli::grpc::{control_plane_endpoint, control_plane_uri, player_connect_request, register_runner_request};
use mgs_cli::cli::{RunnerStartArgs, UserConnectArgs};
use mgs_cli::platform::{
    check_tailscaled, docker_group_add, docker_sock_bind, get_docker_gid, get_host_ids, unix_only_cap_add,
    unix_only_devices, windows, DockerGidError, HostOs, TailscaledCheck, TailscaledSource,
};
use mgs_cli::runner::health::{health_verdict, HealthObservation, HealthVerdict};
use mgs_cli::fmt::decimal_string;
use mgs_cli::tailscale::{command_outcome, command_result, down_args, ip_args, status_args, tailscale_binary, trim_white_space, up_args, TailscaleError};

#[test]
fn host_ids() {
    assert_eq!(get_host_ids(HostOs::Unix, (501, 20)), (501, 20));
    assert_eq!(get_host_ids(HostOs::Windows, (501, 20)), (1000, 1000));
    assert_eq!(windows::get_host_ids(), (1000, 1000));
}

#[test]
fn docker_group() {
    assert_eq!(get_docker_gid(HostOs::Unix, Some(998)), Ok(998));
    assert_eq!(get_docker_gid(HostOs::Unix, Some(0)), Err(DockerGidError::RootGroup));
    assert_eq!(get_docker_gid(HostOs::Unix, None), Err(DockerGidError::SocketUnavailable));
    assert_eq!(get_docker_gid(HostOs::Windows, None), Ok(0));
    assert_eq!(docker_group_add(HostOs::Unix, Some(998)), Ok(Some(vec!["998".to_string()])));
    assert_eq!(docker_group_add(HostOs::Unix, Some(0)), Err(DockerGidError::RootGroup));
    assert_eq!(docker_group_add(HostOs::Windows, Some(998)), Ok(None));
    assert_eq!(windows::get_docker_gid(), Ok(0));
    assert_eq!(windows::docker_group_add(), Ok(None));
}

#[test]
fn binds_caps_devices() {
    assert_eq!(docker_sock_bind(HostOs::Unix), "/var/run/docker.sock:/var/run/docker.sock");
    assert_eq!(docker_sock_bind(HostOs::Windows), "//./pipe/docker_engine://./pipe/docker_engine");
    assert_eq!(windows::docker_sock_bind(), "//./pipe/docker_engine://./pipe/docker_engine");
    assert_eq!(unix_only_cap_add(HostOs::Unix), Some(vec!["NET_ADMIN".to_string()]));
    assert_eq!(unix_only_cap_add(HostOs::Windows), None);
    assert_eq!(windows::unix_only_cap_add(), None);
    assert_eq!(unix_only_devices(HostOs::Unix).unwrap().len(), 1);
    assert!(unix_only_devices(HostOs::Windows).is_none());
    assert!(windows::unix_only_devices().is_none());
}

#[test]
fn tailscaled_check_order() {
    assert_eq!(check_tailscaled(true, None), TailscaledCheck::Running(TailscaledSource::Systemd));
    assert_eq!(check_tailscaled(false, None), TailscaledCheck::LookForProcess);
    assert_eq!(check_tailscaled(false, Some(true)), TailscaledCheck::Running(TailscaledSource::Process));
    assert_eq!(check_tailscaled(false, Some(false)), TailscaledCheck::NotRunning);
}

#[test]
fn health_verdicts() {
    let obs = |present: bool, status: Option<&str>, running: Option<bool>| HealthObservation {
        state_present: present,
        health_status: status.map(|s| s.to_string()),
        running,
    };
    assert_eq!(health_verdict(&obs(true, Some("healthy"), Some(true)), true), HealthVerdict::Healthy);
    assert_eq!(health_verdict(&obs(true, Some("healthy"), Some(false)), false), HealthVerdict::Healthy);
    assert_eq!(health_verdict(&obs(true, Some("unhealthy"), Some(true)), false), HealthVerdict::Unhealthy);
    assert_eq!(health_verdict(&obs(true, Some("starting"), None), false), HealthVerdict::Stopped);
    assert_eq!(health_verdict(&obs(true, Some("starting"), Some(true)), false), HealthVerdict::Pending);
    assert_eq!(health_verdict(&obs(true, Some("starting"), Some(true)), true), HealthVerdict::TimedOut);
    assert_eq!(health_verdict(&obs(false, None, None), false), HealthVerdict::Pending);
    assert_eq!(health_verdict(&obs(false, Some("healthy"), Some(true)), true), HealthVerdict::TimedOut);
}

#[test]
fn tailscale_commands() {
    assert_eq!(tailscale_binary(HostOs::Unix), "tailscale");
    assert_eq!(tailscale_binary(HostOs::Windows), "tailscale.exe");
    assert_eq!(
        up_args("https://hs.example", "key"),
        vec!["up", "--login-server=https://hs.example", "--authkey=key", "--accept-routes"]
    );
    assert_eq!(down_args(), vec!["down"]);
    assert_eq!(ip_args(), vec!["ip", "--4"]);
    assert_eq!(status_args(), vec!["status"]);
}

#[test]
fn tailscale_outcomes() {
    assert_eq!(command_outcome(true, " 100.64.0.7\n", "ignored").unwrap(), "100.64.0.7");
    match command_outcome(false, "out", "boom\n") {
        Err(TailscaleError::CommandFailed { stderr }) => assert_eq!(stderr, "boom\n"),
        other => panic!("unexpected {:?}", other),
    }
    assert_eq!(trim_white_space("\u{3000}\t a b \u{a0}"), "a b");
    assert_eq!(trim_white_space("   "), "");
    assert_eq!(trim_white_space(""), "");
}

#[test]
fn configuration_path() {
    assert_eq!(config_path(Some("/home/ann"), "/"), "/home/ann/.mgs-cli/mgs-cli.toml");
    assert_eq!(config_path(Some("/root/"), "/"), "/root/.mgs-cli/mgs-cli.toml");
    assert_eq!(config_path(None, "/"), "./.mgs-cli/mgs-cli.toml");
    assert_eq!(config_path(Some(""), "/"), ".mgs-cli/mgs-cli.toml");
    assert_eq!(config_path(Some("C:\\Users\\ann"), "\\"), "C:\\Users\\ann\\.mgs-cli\\mgs-cli.toml");
    assert_eq!(config_path(Some("C:/Users/ann/"), "\\"), "C:/Users/ann/.mgs-cli\\mgs-cli.toml");
    assert_eq!(config_path(Some("/home/ann\\"), "/"), "/home/ann\\/.mgs-cli/mgs-cli.toml");
}

#[test]
fn control_plane_requests() {
    assert_eq!(control_plane_uri("cp.example:443"), "https://cp.example:443");
    let user = UserConnectArgs { cp_address_user: "cp:1".to_string(), join_secret: "js".to_string() };
    let r = player_connect_request(&user, "1.0.0", "linux");
    assert_eq!((r.cli_version.as_str(), r.join_secret.as_str(), r.platform.as_str()), ("1.0.0", "js", "linux"));
    let args = RunnerStartArgs {
        cp_address_runner: "cp:2".to_string(),
        join_secret: "rs".to_string(),
        host_data_path: "/d".to_string(),
        host_data_bind: "/b".to_string(),
        cpu_cores: 4,
        memory_mb: 8192,
        disk_mb: 100,
    };
    let r = register_runner_request(&args, "1.0.0", "windows");
    assert_eq!(r.join_secret, "rs");
    assert_eq!(r.platform, "windows");
    let res = r.resources.unwrap();
    assert_eq!((res.cpu_cores, res.memory_mb, res.disk_mb), (4, 8192, 100));
}

#[test]
fn control_plane_endpoints() {
    let e = control_plane_endpoint("cp.example:443").expect("a valid address");
    assert_eq!(e.uri_text(), "https://cp.example:443");
    assert_eq!(e.connect_timeout_secs(), Some(5));
    assert_eq!(e.request_timeout_secs(), Some(10));
    assert_eq!(e.endpoint().uri().to_string(), "https://cp.example:443/");
    assert_eq!(e.endpoint().get_connect_timeout(), Some(std::time::Duration::from_secs(5)));
    assert!(control_plane_endpoint("bad address with spaces").is_err());
    assert!(control_plane_endpoint("").is_err());
}

#[test]
fn raw_command_output_is_decoded() {
    assert_eq!(command_result(true, b"100.64.0.9\n", b"").unwrap(), "100.64.0.9");
    assert_eq!(command_result(true, b"\xffab ", b"").unwrap(), "\u{fffd}ab");
    match command_result(false, b"", b"bad \xfe") {
        Err(TailscaleError::CommandFailed { stderr }) => assert_eq!(stderr, "bad \u{fffd}"),
        other => panic!("unexpected {:?}", other),
    }
}

#[test]
fn decimal_rendering() {
    assert_eq!(decimal_string(0), "0");
    assert_eq!(decimal_string(7), "7");
    assert_eq!(decimal_string(10), "10");
    assert_eq!(decimal_string(1002), "1002");
    assert_eq!(decimal_string(u32::MAX), "4294967295");
}
