//! The platform rules on Windows hosts.

use vstd::prelude::*;
use super::{DeviceMapping, DockerGidError};

verus! {

/// Docker Desktop maps bind-mounted files to user and group 1000.
pub fn get_host_ids() -> (res: (u32, u32))
    ensures
        res == (1000u32, 1000u32),
{
    (1000, 1000)
}

/// Windows has no group that owns the Docker endpoint.
pub fn get_docker_gid() -> (res: Result<u32, DockerGidError>)
    ensures
        res == Ok::<u32, DockerGidError>(0),
{
    Ok(0)
}

/// There is no TUN device in Windows containers.
pub fn unix_only_devices() -> (res: Option<Vec<DeviceMapping>>)
    ensures
        res is None,
{
    None
}

/// The Docker engine's named pipe, as a bind.
pub fn docker_sock_bind() -> (res: String)
    ensures
        res@ == "//./pipe/docker_engine://./pipe/docker_engine"@,
{
    "//./pipe/docker_engine://./pipe/docker_engine".to_owned()
}

/// No supplementary group is needed on Windows.
pub fn docker_group_add() -> (res: Result<Option<Vec<String>>, DockerGidError>)
    ensures
        res matches Ok(None),
{
    Ok(None)
}

/// Windows containers have no Linux capabilities.
pub fn unix_only_cap_add() -> (res: Option<Vec<String>>)
    ensures
        res is None,
{
    None
}

} // verus!
