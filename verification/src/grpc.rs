//! Messages exchanged with the control plane, and how requests are made.

use vstd::prelude::*;
use crate::cli::{RunnerStartArgs, UserConnectArgs};
use tonic::transport::Error as TransportError;
use crate::endpoint::{
    ControlPlaneEndpoint, endpoint_uri_parses, parse_endpoint, with_connect_timeout, with_request_timeout,
};

verus! {

/// Seconds allowed for establishing the connection to the control plane.
pub const CONNECT_TIMEOUT_SECS: u64 = 5;

/// Seconds allowed for each request to the control plane.
pub const REQUEST_TIMEOUT_SECS: u64 = 10;

/// Request of a player who joins the mesh.
#[derive(Debug)]
pub struct PlayerConnectRequest {
    pub cli_version: String,
    pub join_secret: String,
    pub platform: String,
}

/// Mesh credentials handed to a player.
#[derive(Debug)]
pub struct PlayerConnectResponse {
    pub headscale_url: String,
    pub headscale_auth_key: String,
}

/// Resources that a runner offers.
#[derive(Debug)]
pub struct RunnerResources {
    pub cpu_cores: u32,
    pub memory_mb: u64,
    pub disk_mb: u64,
}

/// Request of a runner that registers with the control plane.
#[derive(Debug)]
pub struct RegisterRunnerRequest {
    pub cli_version: String,
    pub join_secret: String,
    pub platform: String,
    pub resources: Option<RunnerResources>,
}

/// What the control plane hands a registered runner.
#[derive(Debug)]
pub struct RegisterRunnerResponse {
    pub runner_image: String,
    pub registry_endpoint: String,
    pub registry_username: String,
    pub registry_password: String,
    pub cp_mesh_address: String,
    pub runner_token: String,
    pub headscale_url: String,
    pub headscale_auth_key: String,
}

/// The URI under which the control plane at `addr` is reached.
pub fn control_plane_uri(addr: &str) -> (res: String)
    ensures
        res@ == "https://"@ + addr@,
{
    let mut res = "https://".to_owned();
    res.append(addr);
    res
}

/// The endpoint of the control plane at `addr`: parsed from `https://<addr>`,
/// with `CONNECT_TIMEOUT_SECS` to connect and `REQUEST_TIMEOUT_SECS` per
/// request; tonic's error where that URI does not parse.
pub fn control_plane_endpoint(addr: &str) -> (res: Result<ControlPlaneEndpoint, TransportError>)
    ensures
        res is Ok <==> endpoint_uri_parses("https://"@ + addr@),
        res matches Ok(e) ==> e.uri() == "https://"@ + addr@
            && e.connect_timeout() == Some(CONNECT_TIMEOUT_SECS)
            && e.request_timeout() == Some(REQUEST_TIMEOUT_SECS),
{
    let uri = control_plane_uri(addr);
    match parse_endpoint(uri) {
        Ok(e) => {
            let e = with_connect_timeout(e, CONNECT_TIMEOUT_SECS);
            Ok(with_request_timeout(e, REQUEST_TIMEOUT_SECS))
        },
        Err(err) => Err(err),
    }
}

/// The registration request of a player, made by a client of version
/// `cli_version` on the operating system `platform`.
pub fn player_connect_request(args: &UserConnectArgs, cli_version: &str, platform: &str) -> (res:
    PlayerConnectRequest)
    ensures
        res.cli_version@ == cli_version@,
        res.join_secret@ == args.join_secret@,
        res.platform@ == platform@,
{
    PlayerConnectRequest {
        cli_version: cli_version.to_owned(),
        join_secret: args.join_secret.clone(),
        platform: platform.to_owned(),
    }
}

/// The registration request of a runner, made by a client of version
/// `cli_version` on the operating system `platform`; it offers the resources
/// given on the command line.
pub fn register_runner_request(args: &RunnerStartArgs, cli_version: &str, platform: &str) -> (res:
    RegisterRunnerRequest)
    ensures
        res.cli_version@ == cli_version@,
        res.join_secret@ == args.join_secret@,
        res.platform@ == platform@,
        res.resources == Some(
            (RunnerResources {
                cpu_cores: args.cpu_cores,
                memory_mb: args.memory_mb,
                disk_mb: args.disk_mb,
            }),
        ),
{
    RegisterRunnerRequest {
        cli_version: cli_version.to_owned(),
        join_secret: args.join_secret.clone(),
        platform: platform.to_owned(),
        resources: Some(
            RunnerResources {
                cpu_cores: args.cpu_cores,
                memory_mb: args.memory_mb,
                disk_mb: args.disk_mb,
            },
        ),
    }
}

} // verus!
